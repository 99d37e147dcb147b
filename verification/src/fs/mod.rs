//! File systems: the types that drivers share, and the RAM file system.

use vstd::prelude::*;

pub mod dev;
pub mod path;
pub mod ramfs;

verus! {

/// The offset within a file.
pub type OffsetType = i64;

/// Why a file system operation failed.
#[derive(Debug, Clone, Copy, PartialEq, Eq, Structural)]
pub enum ErrorKind {
    NotFound,
    NotADirectory,
    IsADirectory,
    AlreadyExists,
    DirectoryNotEmpty,
    FilesystemQuotaExceeded,
    StorageFull,
    InvalidInput,
    ReadOnlyFilesystem,
    CrossesDevices,
    OutOfMemory,
}

/// The number of a node of a file system; never 0.
#[derive(Debug, Clone, Copy, PartialEq, Eq, PartialOrd, Ord, Structural)]
pub struct INodeType {
    value: u128,
}

impl View for INodeType {
    type V = u128;

    closed spec fn view(&self) -> u128 {
        self.value
    }
}

impl INodeType {
    #[verifier::type_invariant]
    spec fn inv(self) -> bool {
        self.value != 0
    }

    /// The node with number `v`, when it is not 0.
    pub closed spec fn spec_new(v: u128) -> Self {
        INodeType { value: v }
    }

    /// Nodes are told apart by their numbers.
    pub broadcast proof fn lemma_view(v: u128)
        ensures
            #[trigger] Self::spec_new(v)@ == v,
    {
    }

    pub broadcast proof fn lemma_view_injective(a: Self, b: Self)
        ensures
            #[trigger] a@ == #[trigger] b@ ==> a == b,
    {
    }

    /// The node with number `val`; none for 0.
    pub fn new(val: u128) -> (r: Option<Self>)
        ensures
            val == 0 ==> r is None,
            val != 0 ==> r == Some(Self::spec_new(val)),
    {
        if val == 0 {
            None
        } else {
            Some(INodeType { value: val })
        }
    }

    pub fn get(&self) -> (r: u128)
        ensures
            r == self@,
            r != 0,
    {
        proof {
            use_type_invariant(self);
        }
        self.value
    }
}

/// What kind of node a node is.
#[derive(Debug, Clone, Copy, PartialEq, Eq, Structural)]
pub enum FileType {
    File,
    Dir,
    CharDevice,
    BlockDevice,
}

impl FileType {
    pub fn is_dir(&self) -> (r: bool)
        ensures
            r == (*self == FileType::Dir),
    {
        match self {
            FileType::Dir => true,
            _ => false,
        }
    }

    pub fn is_file(&self) -> (r: bool)
        ensures
            r == (*self == FileType::File),
    {
        match self {
            FileType::File => true,
            _ => false,
        }
    }

    pub fn is_char_device(&self) -> (r: bool)
        ensures
            r == (*self == FileType::CharDevice),
    {
        match self {
            FileType::CharDevice => true,
            _ => false,
        }
    }

    pub fn is_block_device(&self) -> (r: bool)
        ensures
            r == (*self == FileType::BlockDevice),
    {
        match self {
            FileType::BlockDevice => true,
            _ => false,
        }
    }
}

/// What `stat` tells of a node.
#[derive(Debug, Clone, Copy, PartialEq, Eq, Structural)]
pub struct FsRawMetaData {
    pub inode: INodeType,
    pub file_type: FileType,
    pub len: OffsetType,
}

impl FsRawMetaData {
    pub fn new(inode: INodeType, file_type: FileType, len: OffsetType) -> (r: Self)
        ensures
            r == (FsRawMetaData { inode, file_type, len }),
    {
        FsRawMetaData { inode, file_type, len }
    }

    pub fn inode(&self) -> (r: INodeType)
        ensures
            r == self.inode,
    {
        self.inode
    }

    pub fn file_type(&self) -> (r: FileType)
        ensures
            r == self.file_type,
    {
        self.file_type
    }

    pub fn len(&self) -> (r: OffsetType)
        ensures
            r == self.len,
    {
        self.len
    }
}

/// An entry of a directory listing.
pub struct FsRawDirEntry {
    pub inode: INodeType,
    pub name: String,
    pub metadata: FsRawMetaData,
}

impl FsRawDirEntry {
    pub fn new(inode: INodeType, name: String, metadata: FsRawMetaData) -> (r: Self)
        ensures
            r.inode == inode,
            r.name@ == name@,
            r.metadata == metadata,
    {
        FsRawDirEntry { inode, name, metadata }
    }

    pub fn inode(&self) -> (r: INodeType)
        ensures
            r == self.inode,
    {
        self.inode
    }

    pub fn name(&self) -> (r: &str)
        ensures
            r@ == self.name@,
    {
        self.name.as_str()
    }

    pub fn metadata(&self) -> (r: &FsRawMetaData)
        ensures
            *r == self.metadata,
    {
        &self.metadata
    }
}

/// Where `lseek` counts from.
#[derive(Debug, Clone, Copy, PartialEq, Eq, PartialOrd, Ord, Structural)]
pub enum Whence {
    SeekSet,
    SeekCur,
    SeekEnd,
}

impl Default for Whence {
    fn default() -> (r: Self)
        ensures
            r == Whence::SeekSet,
    {
        Whence::SeekSet
    }
}

impl Whence {
    /// The whence with number `value`: 0, 1 or 2.
    pub fn try_from_usize(value: usize) -> (r: Result<Self, ()>)
        ensures
            value == 0 ==> r == Ok::<Whence, ()>(Whence::SeekSet),
            value == 1 ==> r == Ok::<Whence, ()>(Whence::SeekCur),
            value == 2 ==> r == Ok::<Whence, ()>(Whence::SeekEnd),
            value > 2 ==> r is Err,
    {
        match value {
            0 => Ok(Whence::SeekSet),
            1 => Ok(Whence::SeekCur),
            2 => Ok(Whence::SeekEnd),
            _ => Err(()),
        }
    }
}

/// An open file: what it may do, and where it stands.
#[derive(Debug, Clone, Copy, PartialEq, Eq, Structural)]
pub struct FsRawFileControlBlock {
    /// The node that was opened.
    pub access_token: INodeType,
    pub read: bool,
    pub write: bool,
    pub is_device: bool,
    pub file_pos: OffsetType,
}

impl FsRawFileControlBlock {
    pub fn new(access_token: INodeType, read: bool, write: bool, is_device: bool) -> (r: Self)
        ensures
            r == (FsRawFileControlBlock { access_token, read, write, is_device, file_pos: 0 }),
    {
        FsRawFileControlBlock { access_token, read, write, is_device, file_pos: 0 }
    }

    /// Moves the position of a file that is not a device: to `offset`, by `offset`, or
    /// to `offset` from the end (`end_len`: the length that `stat` gives, if any; without
    /// it the position becomes 0). An overflow is refused.
    pub fn lseek(&mut self, offset: OffsetType, whence: Whence, end_len: Option<OffsetType>) -> (r: Result<OffsetType, ErrorKind>)
        requires
            !old(self).is_device,
        ensures
            ({
                let new_pos: Option<int> = match whence {
                    Whence::SeekSet => Some(offset as int),
                    Whence::SeekCur => Some(old(self).file_pos + offset),
                    Whence::SeekEnd => match end_len {
                        Some(len) => Some(len + offset),
                        None => Some(0int),
                    },
                };
                match new_pos {
                    Some(p) => if i64::MIN <= p <= i64::MAX {
                        r == Ok::<OffsetType, ErrorKind>(p as i64) && final(self).file_pos == p
                    } else {
                        r == Err::<OffsetType, ErrorKind>(ErrorKind::InvalidInput) && final(self).file_pos == old(self).file_pos
                    },
                    None => false,
                }
            }),
            final(self).access_token == old(self).access_token,
            final(self).read == old(self).read,
            final(self).write == old(self).write,
            final(self).is_device == old(self).is_device,
    {
        let new_pos = match whence {
            Whence::SeekSet => Some(offset),
            Whence::SeekCur => self.file_pos.checked_add(offset),
            Whence::SeekEnd => match end_len {
                Some(len) => len.checked_add(offset),
                None => Some(0),
            },
        };
        match new_pos {
            Some(p) => {
                self.file_pos = p;
                Ok(p)
            },
            None => Err(ErrorKind::InvalidInput),
        }
    }

    /// Whether the file may be read; reading one that may not is refused.
    pub fn check_read(&self) -> (r: Result<(), ErrorKind>)
        ensures
            self.read ==> r is Ok,
            !self.read ==> r == Err::<(), ErrorKind>(ErrorKind::InvalidInput),
    {
        if self.read {
            Ok(())
        } else {
            Err(ErrorKind::InvalidInput)
        }
    }

    /// Whether the file may be written; writing one that may not is refused.
    pub fn check_write(&self) -> (r: Result<(), ErrorKind>)
        ensures
            self.write ==> r is Ok,
            !self.write ==> r == Err::<(), ErrorKind>(ErrorKind::InvalidInput),
    {
        if self.write {
            Ok(())
        } else {
            Err(ErrorKind::InvalidInput)
        }
    }

    /// Moves the position past `count` bytes that were read or written.
    pub fn advance(&mut self, count: usize)
        requires
            count <= i64::MAX,
            old(self).file_pos + count <= i64::MAX,
        ensures
            final(self).file_pos == old(self).file_pos + count,
            final(self).access_token == old(self).access_token,
            final(self).read == old(self).read,
            final(self).write == old(self).write,
            final(self).is_device == old(self).is_device,
    {
        self.file_pos = self.file_pos + count as i64;
    }
}

} // verus!
