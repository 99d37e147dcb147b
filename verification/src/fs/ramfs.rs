//! The RAM file system: files and directories that live in memory.

use vstd::prelude::*;
use super::{ErrorKind, FileType, FsRawDirEntry, FsRawMetaData, INodeType, OffsetType};

verus! {

/// The largest size of a file.
pub const FILE_SIZE_MAX: usize = 0x7FFF_FFFF;

/// The largest number of nodes.
pub const INODE_MAX: usize = 0x7FFF;

/// `n` zero bytes.
pub open spec fn zeros(n: nat) -> Seq<u8> {
    Seq::new(n, |i: int| 0u8)
}

/// The contents of a file after `buf` was written at `offset`: what lay from `offset`
/// on is dropped first; then, when there is something to write, a gap before
/// `offset` is filled with zeros and `buf` follows.
pub open spec fn spec_written(content: Seq<u8>, offset: int, buf: Seq<u8>) -> Seq<u8> {
    let kept = if offset < content.len() { content.take(offset) } else { content };
    if buf.len() == 0 {
        kept
    } else {
        kept + zeros((offset - kept.len()) as nat) + buf
    }
}

/// A file: its bytes, and the size that was last recorded for it.
pub struct ThisFsFile {
    pub estimated_size: usize,
    pub content: Vec<u8>,
}

impl ThisFsFile {
    /// An empty file.
    pub fn new() -> (r: Self)
        ensures
            r.estimated_size == 0,
            r.content@ == Seq::<u8>::empty(),
    {
        ThisFsFile { estimated_size: 0, content: Vec::new() }
    }

    pub fn estimated_size(&self) -> (r: usize)
        ensures
            r == self.estimated_size,
    {
        self.estimated_size
    }

    /// Reads from `offset` into `buf`: as many bytes as fit and as the file holds.
    pub fn read(&self, offset: usize, buf: &mut [u8]) -> (r: Result<usize, ErrorKind>)
        ensures
            offset >= self.content@.len() ==> r == Ok::<usize, ErrorKind>(0) && final(buf)@ == old(buf)@,
            offset < self.content@.len() ==> {
                let count = if old(buf)@.len() < self.content@.len() - offset {
                    old(buf)@.len() as int
                } else {
                    self.content@.len() - offset
                };
                &&& r == Ok::<usize, ErrorKind>(count as usize)
                &&& final(buf)@ == self.content@.subrange(offset as int, offset + count) + old(buf)@.skip(count)
            },
    {
        if offset >= self.content.len() {
            return Ok(0);
        }
        let count = if buf.len() < self.content.len() - offset {
            buf.len()
        } else {
            self.content.len() - offset
        };
        let ghost initial = buf@;
        let mut i: usize = 0;
        while i < count
            invariant
                count <= buf@.len(),
                buf@.len() == initial.len(),
                offset + count <= self.content@.len(),
                self.content@.len() <= usize::MAX,
                i <= count,
                forall|j: int| 0 <= j < i ==> buf@[j] == self.content@[offset + j],
                forall|j: int| i <= j < buf@.len() ==> buf@[j] == initial[j],
            decreases count - i,
        {
            buf[i] = self.content[offset + i];
            i += 1;
        }
        assert(buf@ =~= self.content@.subrange(offset as int, offset + count) + initial.skip(count as int));
        Ok(count)
    }

    /// Writes `buf` at `offset`. What lay from `offset` on is dropped; a gap before
    /// `offset` reads as zeros. A file that would grow beyond `FILE_SIZE_MAX` is
    /// refused, and so is one for which memory could not be had.
    pub fn write(&mut self, offset: usize, buf: &[u8]) -> (r: Result<usize, ErrorKind>)
        ensures
            offset + buf@.len() > FILE_SIZE_MAX ==> {
                &&& r == Err::<usize, ErrorKind>(ErrorKind::FilesystemQuotaExceeded)
                &&& final(self).content@ == old(self).content@
                &&& final(self).estimated_size == old(self).estimated_size
            },
            offset + buf@.len() <= FILE_SIZE_MAX ==> {
                ||| {
                    &&& r == Ok::<usize, ErrorKind>(buf@.len() as usize)
                    &&& final(self).content@ == spec_written(old(self).content@, offset as int, buf@)
                    &&& final(self).estimated_size == if buf@.len() > 0 {
                        (offset + buf@.len()) as usize
                    } else {
                        old(self).estimated_size
                    }
                }
                ||| {
                    &&& r == Err::<usize, ErrorKind>(ErrorKind::StorageFull)
                    &&& final(self).content@ == old(self).content@
                    &&& final(self).estimated_size == old(self).estimated_size
                }
            },
    {
        let new_size = match offset.checked_add(buf.len()) {
            Some(v) => v,
            None => {
                return Err(ErrorKind::FilesystemQuotaExceeded);
            },
        };
        if new_size > FILE_SIZE_MAX {
            return Err(ErrorKind::FilesystemQuotaExceeded);
        }
        if new_size > self.content.len() {
            let additional = new_size - self.content.len();
            match self.content.try_reserve(additional) {
                Ok(_) => {},
                Err(_) => {
                    return Err(ErrorKind::StorageFull);
                },
            }
        }
        if offset < self.content.len() {
            self.content.truncate(offset);
        }
        let ghost kept = self.content@;
        let count = buf.len();
        if count > 0 {
            if self.content.len() < offset {
                self.content.resize(offset, 0u8);
            }
            assert(self.content@ =~= kept + zeros((offset - kept.len()) as nat)) by {
                assert forall|i: int| kept.len() <= i < offset implies self.content@[i] == 0u8 by {
                    assert(cloned::<u8>(0u8, self.content@[i]));
                }
            }
            let ghost base = self.content@;
            let mut i: usize = 0;
            while i < count
                invariant
                    i <= count,
                    count == buf@.len(),
                    base.len() == offset,
                    self.content@ == base + buf@.take(i as int),
                decreases count - i,
            {
                self.content.push(buf[i]);
                assert(buf@.take(i as int).push(buf@[i as int]) =~= buf@.take(i + 1));
                i += 1;
            }
            assert(buf@.take(count as int) =~= buf@);
            self.estimated_size = new_size;
        }
        Ok(count)
    }

    /// Grows the file to `length` bytes, the new ones zero. A negative length, and one
    /// below the current size, are refused.
    pub fn truncate(&mut self, length: OffsetType) -> (r: Result<(), ErrorKind>)
        requires
            length <= usize::MAX,
        ensures
            (length < 0 || length < old(self).content@.len()) ==> {
                &&& r == Err::<(), ErrorKind>(ErrorKind::InvalidInput)
                &&& final(self).content@ == old(self).content@
            },
            (length >= 0 && length >= old(self).content@.len()) ==> {
                &&& r is Ok
                &&& final(self).content@ == old(self).content@ + zeros((length - old(self).content@.len()) as nat)
            },
            final(self).estimated_size == old(self).estimated_size,
    {
        if length < 0 {
            return Err(ErrorKind::InvalidInput);
        }
        let length = length as usize;
        if self.content.len() <= length {
            let ghost before = self.content@;
            self.content.resize(length, 0u8);
            assert(self.content@ =~= before + zeros((length - before.len()) as nat)) by {
                assert forall|i: int| before.len() <= i < length implies self.content@[i] == 0u8 by {
                    assert(cloned::<u8>(0u8, self.content@[i]));
                }
            }
            Ok(())
        } else {
            Err(ErrorKind::InvalidInput)
        }
    }
}


/// An entry of a directory: a name for a node.
pub struct ThisFsDirEntry {
    pub inode: INodeType,
    pub name: String,
}

impl ThisFsDirEntry {
    pub fn inode(&self) -> (r: INodeType)
        ensures
            r == self.inode,
    {
        self.inode
    }

    pub fn name(&self) -> (r: &str)
        ensures
            r@ == self.name@,
    {
        self.name.as_str()
    }
}

/// The first position in `names` that holds `name`.
pub open spec fn spec_find(names: Seq<Seq<char>>, name: Seq<char>) -> Option<int> {
    if exists|i: int| 0 <= i < names.len() && names[i] == name {
        Some(choose|i: int| 0 <= i < names.len() && names[i] == name && forall|j: int| 0 <= j < i ==> names[j] != name)
    } else {
        None
    }
}

/// The position that `spec_find` gives holds the name, and no earlier one does; when
/// it gives none, no position holds the name.
pub proof fn lemma_spec_find(names: Seq<Seq<char>>, name: Seq<char>)
    ensures
        spec_find(names, name) matches Some(i) ==> 0 <= i < names.len() && names[i] == name
            && forall|j: int| 0 <= j < i ==> names[j] != name,
        spec_find(names, name) is None ==> forall|j: int| 0 <= j < names.len() ==> names[j] != name,
{
    if exists|i: int| 0 <= i < names.len() && names[i] == name {
        let i = choose|i: int| 0 <= i < names.len() && names[i] == name;
        lemma_first_exists(names, name, i);
    }
}

proof fn lemma_first_exists(names: Seq<Seq<char>>, name: Seq<char>, i: int)
    requires
        0 <= i < names.len(),
        names[i] == name,
    ensures
        exists|k: int| 0 <= k < names.len() && names[k] == name && forall|j: int| 0 <= j < k ==> names[j] != name,
    decreases i,
{
    if exists|j: int| 0 <= j < i && names[j] == name {
        let j = choose|j: int| 0 <= j < i && names[j] == name;
        lemma_first_exists(names, name, j);
    } else {
        assert(forall|j: int| 0 <= j < i ==> names[j] != name);
    }
}

/// The entries of a directory, in the order in which they were made.
pub struct ThisFsDirectoryContent {
    pub content: Vec<ThisFsDirEntry>,
}

impl ThisFsDirectoryContent {
    /// The names of the entries.
    pub open spec fn names(&self) -> Seq<Seq<char>> {
        self.content@.map_values(|e: ThisFsDirEntry| e.name@)
    }

    /// The nodes of the entries.
    pub open spec fn inodes(&self) -> Seq<INodeType> {
        self.content@.map_values(|e: ThisFsDirEntry| e.inode)
    }

    pub fn new() -> (r: Self)
        ensures
            r.content@.len() == 0,
    {
        ThisFsDirectoryContent { content: Vec::new() }
    }

    pub fn len(&self) -> (r: usize)
        ensures
            r == self.content@.len(),
    {
        self.content.len()
    }

    /// The position of the entry named `name`.
    pub fn find_index(&self, name: &String) -> (r: Result<usize, ErrorKind>)
        ensures
            match r {
                Ok(k) => spec_find(self.names(), name@) == Some(k as int),
                Err(e) => e == ErrorKind::NotFound && spec_find(self.names(), name@) is None,
            },
    {
        let mut i: usize = 0;
        while i < self.content.len()
            invariant
                i <= self.content@.len(),
                forall|j: int| 0 <= j < i ==> self.names()[j] != name@,
            decreases self.content@.len() - i,
        {
            if self.content[i].name == *name {
                proof {
                    let names = self.names();
                    assert(names[i as int] == name@);
                    let c = choose|k: int| 0 <= k < names.len() && names[k] == name@ && forall|j: int| 0 <= j < k ==> names[j] != name@;
                    if c < i {
                    } else if i < c {
                    }
                }
                return Ok(i);
            }
            i += 1;
        }
        Err(ErrorKind::NotFound)
    }

    /// The node of the entry named `name`.
    pub fn find(&self, name: &String) -> (r: Result<INodeType, ErrorKind>)
        ensures
            match spec_find(self.names(), name@) {
                Some(i) => r == Ok::<INodeType, ErrorKind>(self.inodes()[i]),
                None => r == Err::<INodeType, ErrorKind>(ErrorKind::NotFound),
            },
    {
        proof {
            lemma_spec_find(self.names(), name@);
        }
        match self.find_index(name) {
            Ok(i) => {
                let v = self.content[i].inode;
                assert(v == self.inodes()[i as int]);
                Ok(v)
            },
            Err(e) => Err(e),
        }
    }

    /// Adds an entry at the end.
    pub fn push(&mut self, name: String, inode: INodeType)
        ensures
            final(self).names() == old(self).names().push(name@),
            final(self).inodes() == old(self).inodes().push(inode),
    {
        self.content.push(ThisFsDirEntry { inode, name });
        assert(self.names() =~= old(self).names().push(name@));
        assert(self.inodes() =~= old(self).inodes().push(inode));
    }

    /// Removes the entry at `index` and gives its node.
    pub fn remove_at(&mut self, index: usize) -> (r: INodeType)
        requires
            index < old(self).content@.len(),
        ensures
            r == old(self).inodes()[index as int],
            final(self).names() == old(self).names().remove(index as int),
            final(self).inodes() == old(self).inodes().remove(index as int),
    {
        let e = self.content.remove(index);
        assert(self.names() =~= old(self).names().remove(index as int));
        assert(self.inodes() =~= old(self).inodes().remove(index as int));
        e.inode
    }

    /// Gives the entry named `old_name` the name `new_name`; an entry that had that name
    /// before goes away, and its node is given back.
    pub fn force_rename(&mut self, old_name: &String, new_name: &String) -> (r: Result<Option<INodeType>, ErrorKind>)
        ensures
            match spec_find(old(self).names(), old_name@) {
                None => r == Err::<Option<INodeType>, ErrorKind>(ErrorKind::NotFound) && final(self).names() == old(self).names()
                    && final(self).inodes() == old(self).inodes(),
                Some(o) => {
                    let renamed_names = old(self).names().update(o, new_name@);
                    match spec_find(old(self).names(), new_name@) {
                        None => {
                            &&& r == Ok::<Option<INodeType>, ErrorKind>(None)
                            &&& final(self).names() == renamed_names
                            &&& final(self).inodes() == old(self).inodes()
                        },
                        Some(n) => {
                            &&& r == Ok::<Option<INodeType>, ErrorKind>(Some(old(self).inodes()[n]))
                            &&& final(self).names() == renamed_names.remove(n)
                            &&& final(self).inodes() == old(self).inodes().remove(n)
                        },
                    }
                },
            },
    {
        proof {
            lemma_spec_find(self.names(), old_name@);
            lemma_spec_find(self.names(), new_name@);
        }
        let new_index = match self.find_index(new_name) {
            Ok(i) => Some(i),
            Err(_) => None,
        };
        let old_index = match self.find_index(old_name) {
            Ok(i) => i,
            Err(e) => {
                return Err(e);
            },
        };
        let ghost before = self.content@;
        let mut entry = ThisFsDirEntry { inode: self.content[old_index].inode, name: new_name.clone() };
        self.content.set_and_swap(old_index, &mut entry);
        assert(self.names() =~= old(self).names().update(old_index as int, new_name@));
        assert(self.inodes() =~= old(self).inodes());
        let ghost renamed = self.names();
        let ghost same = self.inodes();
        match new_index {
            Some(n) => {
                let gone = self.remove_at(n);
                assert(self.names() == renamed.remove(n as int));
                assert(self.inodes() == same.remove(n as int));
                assert(gone == old(self).inodes()[n as int]);
                Ok(Some(gone))
            },
            None => Ok(None),
        }
    }

    /// Points the entry named `name` to `inode`, or adds one; the node that the entry
    /// named before is given back.
    pub fn append_or_replace(&mut self, name: &String, inode: INodeType) -> (r: Option<INodeType>)
        ensures
            match spec_find(old(self).names(), name@) {
                Some(i) => {
                    &&& r == Some(old(self).inodes()[i])
                    &&& final(self).names() == old(self).names()
                    &&& final(self).inodes() == old(self).inodes().update(i, inode)
                },
                None => {
                    &&& r is None
                    &&& final(self).names() == old(self).names().push(name@)
                    &&& final(self).inodes() == old(self).inodes().push(inode)
                },
            },
    {
        proof {
            lemma_spec_find(self.names(), name@);
        }
        match self.find_index(name) {
            Ok(i) => {
                let mut entry = ThisFsDirEntry { inode, name: name.clone() };
                self.content.set_and_swap(i, &mut entry);
                assert(self.names() =~= old(self).names());
                assert(self.inodes() =~= old(self).inodes().update(i as int, inode));
                Some(entry.inode)
            },
            Err(_) => {
                self.push(name.clone(), inode);
                None
            },
        }
    }
}


/// What a node holds.
pub enum ThisFsContent {
    File(ThisFsFile),
    Directory(ThisFsDirectoryContent),
}

/// A node: its number, what it holds, and how many references keep it alive (entries
/// of directories, open files, and the file system itself for the root).
pub struct ThisFsInodeEntity {
    pub inode: INodeType,
    pub content: ThisFsContent,
    pub refs: usize,
}

impl ThisFsInodeEntity {
    pub open spec fn spec_file_type(&self) -> FileType {
        match self.content {
            ThisFsContent::File(_) => FileType::File,
            ThisFsContent::Directory(_) => FileType::Dir,
        }
    }

    pub open spec fn spec_file_size(&self) -> int {
        match self.content {
            ThisFsContent::File(f) => f.estimated_size as int,
            ThisFsContent::Directory(d) => d.content@.len() as int,
        }
    }

    pub fn file_type(&self) -> (r: FileType)
        ensures
            r == self.spec_file_type(),
    {
        match self.content {
            ThisFsContent::File(_) => FileType::File,
            ThisFsContent::Directory(_) => FileType::Dir,
        }
    }

    /// The size of a file as it was last recorded; the number of entries of a directory.
    pub fn file_size(&self) -> (r: usize)
        ensures
            r == self.spec_file_size(),
    {
        match &self.content {
            ThisFsContent::File(f) => f.estimated_size(),
            ThisFsContent::Directory(d) => d.len(),
        }
    }

    pub open spec fn spec_metadata(&self) -> FsRawMetaData {
        FsRawMetaData { inode: self.inode, file_type: self.spec_file_type(), len: self.spec_file_size() as i64 }
    }

    pub fn metadata(&self) -> (r: FsRawMetaData)
        ensures
            r == self.spec_metadata(),
    {
        FsRawMetaData::new(self.inode, self.file_type(), self.file_size() as i64)
    }
}

/// Where a node stands in the table of the file system.
pub enum InodeSlot {
    /// The node is alive.
    Live(ThisFsInodeEntity),
    /// The node died; its number is still registered until it is looked up.
    Stale,
    /// The node died and its number is no longer registered.
    Removed,
}

/// Whether a slot holds a registered number.
pub open spec fn is_registered(s: InodeSlot) -> bool {
    !(s is Removed)
}

/// How many slots hold a registered number.
pub open spec fn count_registered(slots: Seq<InodeSlot>) -> nat
    decreases slots.len(),
{
    if slots.len() == 0 {
        0
    } else {
        count_registered(slots.drop_last()) + if is_registered(slots.last()) { 1nat } else { 0nat }
    }
}

/// How many slots hold a live node.
pub open spec fn count_live(slots: Seq<InodeSlot>) -> nat
    decreases slots.len(),
{
    if slots.len() == 0 {
        0
    } else {
        count_live(slots.drop_last()) + if slots.last() is Live { 1nat } else { 0nat }
    }
}

pub proof fn lemma_counts_push(slots: Seq<InodeSlot>, v: InodeSlot)
    ensures
        count_registered(slots.push(v)) == count_registered(slots) + if is_registered(v) { 1nat } else { 0nat },
        count_live(slots.push(v)) == count_live(slots) + if v is Live { 1nat } else { 0nat },
{
    assert(slots.push(v).drop_last() =~= slots);
}

pub proof fn lemma_counts_update(slots: Seq<InodeSlot>, k: int, v: InodeSlot)
    requires
        0 <= k < slots.len(),
    ensures
        count_registered(slots.update(k, v)) + (if is_registered(slots[k]) { 1nat } else { 0nat })
            == count_registered(slots) + (if is_registered(v) { 1nat } else { 0nat }),
        count_live(slots.update(k, v)) + (if slots[k] is Live { 1nat } else { 0nat })
            == count_live(slots) + (if v is Live { 1nat } else { 0nat }),
        count_registered(slots) <= slots.len(),
        count_live(slots) <= count_registered(slots),
    decreases slots.len(),
{
    let u = slots.update(k, v);
    if k == slots.len() - 1 {
        assert(u.drop_last() =~= slots.drop_last());
        lemma_counts_bound(slots.drop_last());
    } else {
        assert(u.drop_last() =~= slots.drop_last().update(k, v));
        lemma_counts_update(slots.drop_last(), k, v);
    }
}

pub proof fn lemma_counts_bound(slots: Seq<InodeSlot>)
    ensures
        count_registered(slots) <= slots.len(),
        count_live(slots) <= count_registered(slots),
    decreases slots.len(),
{
    if slots.len() > 0 {
        lemma_counts_bound(slots.drop_last());
    }
}

/// The RAM file system: a table of nodes, slot `k` holding node `k + 2`.
pub struct RamFs {
    pub slots: Vec<InodeSlot>,
    /// How many numbers are registered: live nodes and dead ones not yet looked up.
    pub registered: usize,
    /// The number of the node made last.
    pub next_inode: u128,
    pub root: INodeType,
}

impl RamFs {
    /// The slot of a node.
    pub open spec fn slot_index(inode: INodeType) -> int {
        inode@ - 2
    }

    /// Whether a node is alive.
    pub open spec fn live(&self, inode: INodeType) -> bool {
        let k = Self::slot_index(inode);
        0 <= k < self.slots@.len() && self.slots@[k] is Live
    }

    /// A live node.
    pub open spec fn entity(&self, inode: INodeType) -> ThisFsInodeEntity {
        self.slots@[Self::slot_index(inode)]->Live_0
    }

    /// The shape that the table keeps.
    pub open spec fn wf(&self) -> bool {
        &&& self.slots@.len() + 1 == self.next_inode
        &&& self.registered == count_registered(self.slots@)
        &&& self.root@ == 2
        &&& self.slots@.len() >= 1
        &&& forall|k: int| 0 <= k < self.slots@.len() && #[trigger] self.slots@[k] is Live ==>
            self.slots@[k]->Live_0.inode@ == k + 2
    }
}


impl RamFs {
    /// The names in a live directory (none for anything else).
    pub open spec fn dir_names(&self, dir: INodeType) -> Seq<Seq<char>> {
        match self.entity(dir).content {
            ThisFsContent::Directory(d) => d.names(),
            ThisFsContent::File(_) => Seq::empty(),
        }
    }

    /// The nodes in a live directory (none for anything else).
    pub open spec fn dir_inodes(&self, dir: INodeType) -> Seq<INodeType> {
        match self.entity(dir).content {
            ThisFsContent::Directory(d) => d.inodes(),
            ThisFsContent::File(_) => Seq::empty(),
        }
    }

    /// Whether a live node is a directory.
    pub open spec fn is_dir(&self, inode: INodeType) -> bool {
        self.entity(inode).content is Directory
    }

    /// The table after `inode` was looked up: a dead node's number is no longer
    /// registered.
    pub open spec fn cleaned(slots: Seq<InodeSlot>, inode: INodeType) -> Seq<InodeSlot> {
        let k = Self::slot_index(inode);
        if 0 <= k < slots.len() && slots[k] is Stale {
            slots.update(k, InodeSlot::Removed)
        } else {
            slots
        }
    }

    /// An empty file system: the root directory alone.
    pub fn new() -> (r: Self)
        ensures
            r.wf(),
            r.registered == 1,
            r.slots@.len() == 1,
            r.live(r.root),
            r.is_dir(r.root),
            r.dir_names(r.root).len() == 0,
            r.entity(r.root).refs == 1,
    {
        let root = INodeType::new(2).unwrap();
        proof {
            INodeType::lemma_view(2);
        }
        let entity = ThisFsInodeEntity {
            inode: root,
            content: ThisFsContent::Directory(ThisFsDirectoryContent::new()),
            refs: 1,
        };
        let mut slots: Vec<InodeSlot> = Vec::new();
        slots.push(InodeSlot::Live(entity));
        let r = RamFs { slots, registered: 1, next_inode: 2, root };
        proof {
            lemma_counts_push(Seq::<InodeSlot>::empty(), r.slots@[0]);
            assert(Seq::<InodeSlot>::empty().push(r.slots@[0]) =~= r.slots@);
            assert(r.dir_names(r.root) =~= Seq::<Seq<char>>::empty());
        }
        r
    }

    pub fn device_name(&self) -> (r: String)
        ensures
            r@ == "ramfs"@,
    {
        "ramfs".to_owned()
    }

    pub fn description(&self) -> (r: Option<String>)
        ensures
            r is None,
    {
        None
    }

    pub fn root_dir(&self) -> (r: INodeType)
        ensures
            r == self.root,
    {
        self.root
    }

    /// The slot of a node, when the table has one for it.
    fn index_of(&self, inode: INodeType) -> (r: Option<usize>)
        ensures
            match r {
                Some(k) => k == Self::slot_index(inode) && k < self.slots@.len(),
                None => !(0 <= Self::slot_index(inode) < self.slots@.len()),
            },
    {
        let v = inode.get();
        if v < 2 || v - 2 >= self.slots.len() as u128 {
            None
        } else {
            Some((v - 2) as usize)
        }
    }

    /// Whether `inode` is alive. A dead node's number is no longer registered after it
    /// was looked up.
    pub fn get_entity(&mut self, inode: INodeType) -> (r: Option<usize>)
        requires
            old(self).wf(),
        ensures
            final(self).wf(),
            final(self).slots@ == Self::cleaned(old(self).slots@, inode),
            final(self).root == old(self).root,
            match r {
                Some(k) => old(self).live(inode) && k == Self::slot_index(inode),
                None => !old(self).live(inode),
            },
    {
        let k = match self.index_of(inode) {
            Some(k) => k,
            None => {
                return None;
            },
        };
        match &self.slots[k] {
            InodeSlot::Live(_) => Some(k),
            InodeSlot::Stale => {
                let mut removed = InodeSlot::Removed;
                self.slots.set_and_swap(k, &mut removed);
                proof {
                    lemma_counts_update(old(self).slots@, k as int, InodeSlot::Removed);
                }
                self.registered = self.registered - 1;
                proof {
                    assert forall|j: int| 0 <= j < self.slots@.len() && #[trigger] self.slots@[j] is Live implies
                        self.slots@[j]->Live_0.inode@ == j + 2 by {
                        assert(old(self).slots@[j] is Live);
                    }
                }
                None
            },
            InodeSlot::Removed => None,
        }
    }

    /// Looks `name` up in the directory `dir`.
    pub fn lookup(&mut self, dir: INodeType, name: &str) -> (r: Result<INodeType, ErrorKind>)
        requires
            old(self).wf(),
        ensures
            final(self).wf(),
            final(self).slots@ == Self::cleaned(old(self).slots@, dir),
            final(self).root == old(self).root,
            !old(self).live(dir) ==> r == Err::<INodeType, ErrorKind>(ErrorKind::NotFound),
            old(self).live(dir) && !old(self).is_dir(dir) ==> r == Err::<INodeType, ErrorKind>(ErrorKind::NotADirectory),
            old(self).live(dir) && old(self).is_dir(dir) ==> match spec_find(old(self).dir_names(dir), name@) {
                Some(i) => r == Ok::<INodeType, ErrorKind>(old(self).dir_inodes(dir)[i]),
                None => r == Err::<INodeType, ErrorKind>(ErrorKind::NotFound),
            },
    {
        let name = name.to_owned();
        let k = match self.get_entity(dir) {
            Some(k) => k,
            None => {
                return Err(ErrorKind::NotFound);
            },
        };
        match &self.slots[k] {
            InodeSlot::Live(e) => match &e.content {
                ThisFsContent::File(_) => Err(ErrorKind::NotADirectory),
                ThisFsContent::Directory(d) => d.find(&name),
            },
            _ => {
                proof {
                    assert(false);
                }
                Err(ErrorKind::NotFound)
            },
        }
    }

    /// What is known of a node.
    pub fn stat(&mut self, inode: INodeType) -> (r: Option<FsRawMetaData>)
        requires
            old(self).wf(),
        ensures
            final(self).wf(),
            final(self).slots@ == Self::cleaned(old(self).slots@, inode),
            final(self).root == old(self).root,
            old(self).live(inode) ==> r == Some(old(self).entity(inode).spec_metadata()),
            !old(self).live(inode) ==> r is None,
    {
        match self.get_entity(inode) {
            Some(k) => match &self.slots[k] {
                InodeSlot::Live(e) => Some(e.metadata()),
                _ => None,
            },
            None => None,
        }
    }
}


/// Whether slot `b` is slot `a` after references to it were released: the same live
/// node with no more references, or a node that died.
pub open spec fn released_from(a: InodeSlot, b: InodeSlot) -> bool {
    match a {
        InodeSlot::Live(ea) => match b {
            InodeSlot::Live(eb) => eb.inode == ea.inode && eb.content == ea.content && eb.refs <= ea.refs,
            InodeSlot::Stale => true,
            InodeSlot::Removed => false,
        },
        _ => b == a,
    }
}

impl RamFs {
    /// The table after a node was made in `dir`.
    pub open spec fn made(&self, old_fs: RamFs, dir: INodeType, name: Seq<char>, new: INodeType, is_dir: bool) -> bool {
        let k = Self::slot_index(dir);
        &&& new@ == old_fs.next_inode + 1
        &&& self.slots@.len() == old_fs.slots@.len() + 1
        &&& self.live(new)
        &&& self.entity(new).refs == 1
        &&& self.entity(new).inode == new
        &&& (is_dir ==> (self.entity(new).content matches ThisFsContent::Directory(d) && d.content@.len() == 0))
        &&& (!is_dir ==> (self.entity(new).content matches ThisFsContent::File(f) && f.content@.len() == 0
            && f.estimated_size == 0))
        &&& self.live(dir)
        &&& self.is_dir(dir)
        &&& self.entity(dir).inode == old_fs.entity(dir).inode
        &&& self.entity(dir).refs == old_fs.entity(dir).refs
        &&& self.dir_names(dir) == old_fs.dir_names(dir).push(name)
        &&& self.dir_inodes(dir) == old_fs.dir_inodes(dir).push(new)
        &&& forall|j: int| 0 <= j < old_fs.slots@.len() && j != k ==> #[trigger] self.slots@[j] == old_fs.slots@[j]
    }

    /// Makes a node named `name` in the directory `dir`: a directory or an empty file.
    /// Refused when `dir` is not a live directory, when the name is taken, and when
    /// `INODE_MAX` numbers are registered.
    pub fn make_node(&mut self, dir: INodeType, name: &str, is_dir: bool) -> (r: Result<INodeType, ErrorKind>)
        requires
            old(self).wf(),
        ensures
            final(self).wf(),
            final(self).root == old(self).root,
            !old(self).live(dir) ==> r == Err::<INodeType, ErrorKind>(ErrorKind::NotFound)
                && final(self).slots@ == Self::cleaned(old(self).slots@, dir),
            old(self).live(dir) && !old(self).is_dir(dir) ==> r == Err::<INodeType, ErrorKind>(ErrorKind::NotADirectory)
                && final(self).slots@ == old(self).slots@,
            old(self).live(dir) && old(self).is_dir(dir) && spec_find(old(self).dir_names(dir), name@) is Some
                ==> r == Err::<INodeType, ErrorKind>(ErrorKind::AlreadyExists) && final(self).slots@ == old(self).slots@,
            old(self).live(dir) && old(self).is_dir(dir) && spec_find(old(self).dir_names(dir), name@) is None
                && old(self).registered >= INODE_MAX ==> r == Err::<INodeType, ErrorKind>(ErrorKind::FilesystemQuotaExceeded)
                && final(self).slots@ == old(self).slots@,
            old(self).live(dir) && old(self).is_dir(dir) && spec_find(old(self).dir_names(dir), name@) is None
                && old(self).registered < INODE_MAX ==> (r matches Ok(new) && final(self).made(*old(self), dir, name@, new, is_dir)),
    {
        let name = name.to_owned();
        let k = match self.get_entity(dir) {
            Some(k) => k,
            None => {
                return Err(ErrorKind::NotFound);
            },
        };
        match &self.slots[k] {
            InodeSlot::Live(e) => match &e.content {
                ThisFsContent::File(_) => {
                    return Err(ErrorKind::NotADirectory);
                },
                ThisFsContent::Directory(d) => {
                    if d.find(&name).is_ok() {
                        return Err(ErrorKind::AlreadyExists);
                    }
                },
            },
            _ => {
                proof {
                    assert(false);
                }
            },
        }
        if self.registered >= INODE_MAX {
            return Err(ErrorKind::FilesystemQuotaExceeded);
        }
        let n = self.slots.len();
        assert(self.next_inode == n + 1);
        let v = self.next_inode + 1;
        self.next_inode = v;
        let inode = INodeType::new(v).unwrap();
        proof {
            INodeType::lemma_view(v);
        }
        let content = if is_dir {
            ThisFsContent::Directory(ThisFsDirectoryContent::new())
        } else {
            ThisFsContent::File(ThisFsFile::new())
        };
        let ghost s0 = self.slots@;
        self.slots.push(InodeSlot::Live(ThisFsInodeEntity { inode, content, refs: 1 }));
        proof {
            lemma_counts_push(s0, self.slots@.last());
            assert(s0.push(self.slots@.last()) =~= self.slots@);
        }
        self.registered = self.registered + 1;
        let ghost s1 = self.slots@;
        let mut slot = InodeSlot::Removed;
        self.slots.set_and_swap(k, &mut slot);
        match slot {
            InodeSlot::Live(mut e) => {
                match &mut e.content {
                    ThisFsContent::Directory(d) => {
                        d.push(name, inode);
                    },
                    ThisFsContent::File(_) => {},
                }
                let mut back = InodeSlot::Live(e);
                self.slots.set_and_swap(k, &mut back);
            },
            _ => {
                proof {
                    assert(false);
                }
            },
        }
        proof {
            lemma_counts_update(s1, k as int, self.slots@[k as int]);
            assert(self.slots@ =~= s1.update(k as int, self.slots@[k as int]));
            assert forall|j: int| 0 <= j < self.slots@.len() && #[trigger] self.slots@[j] is Live implies
                self.slots@[j]->Live_0.inode@ == j + 2 by {
                if j != k && j < s0.len() {
                    assert(old(self).slots@[j] is Live);
                }
            }
        }
        Ok(inode)
    }
}


impl RamFs {
    /// Every slot of `after` is the slot of `before` after references were released.
    pub open spec fn released(before: Seq<InodeSlot>, after: Seq<InodeSlot>) -> bool {
        &&& after.len() == before.len()
        &&& forall|j: int| 0 <= j < before.len() ==> #[trigger] released_from(before[j], after[j])
    }

    /// Opens a node: one more reference keeps it alive.
    pub fn open(&mut self, inode: INodeType) -> (r: Result<INodeType, ErrorKind>)
        requires
            old(self).wf(),
            old(self).live(inode) ==> old(self).entity(inode).refs < usize::MAX,
        ensures
            final(self).wf(),
            final(self).root == old(self).root,
            !old(self).live(inode) ==> r == Err::<INodeType, ErrorKind>(ErrorKind::NotFound)
                && final(self).slots@ == Self::cleaned(old(self).slots@, inode),
            old(self).live(inode) ==> {
                let k = Self::slot_index(inode);
                &&& r == Ok::<INodeType, ErrorKind>(inode)
                &&& final(self).slots@ == old(self).slots@.update(k, InodeSlot::Live(ThisFsInodeEntity {
                    refs: (old(self).entity(inode).refs + 1) as usize,
                    ..old(self).entity(inode)
                }))
            },
    {
        let k = match self.get_entity(inode) {
            Some(k) => k,
            None => {
                return Err(ErrorKind::NotFound);
            },
        };
        let ghost s0 = self.slots@;
        let mut slot = InodeSlot::Removed;
        self.slots.set_and_swap(k, &mut slot);
        match slot {
            InodeSlot::Live(mut e) => {
                e.refs = e.refs + 1;
                let mut back = InodeSlot::Live(e);
                self.slots.set_and_swap(k, &mut back);
            },
            _ => {
                proof {
                    assert(false);
                }
            },
        }
        proof {
            lemma_counts_update(s0, k as int, self.slots@[k as int]);
            assert(self.slots@ =~= s0.update(k as int, self.slots@[k as int]));
            assert forall|j: int| 0 <= j < self.slots@.len() && #[trigger] self.slots@[j] is Live implies
                self.slots@[j]->Live_0.inode@ == j + 2 by {
                if j != k {
                    assert(s0[j] is Live);
                }
            }
        }
        Ok(inode)
    }

    /// Releases a reference to a node. A node that is left without references dies,
    /// and so do the references that its entries held, in turn.
    pub fn release(&mut self, inode: INodeType)
        requires
            old(self).wf(),
        ensures
            final(self).wf(),
            final(self).root == old(self).root,
            Self::released(old(self).slots@, final(self).slots@),
            !old(self).live(inode) ==> final(self).slots@ == old(self).slots@,
            old(self).live(inode) && old(self).entity(inode).refs > 1 ==> final(self).slots@
                == old(self).slots@.update(Self::slot_index(inode), InodeSlot::Live(ThisFsInodeEntity {
                    refs: (old(self).entity(inode).refs - 1) as usize,
                    ..old(self).entity(inode)
                })),
            old(self).live(inode) && old(self).entity(inode).refs <= 1 ==> final(self).slots@[Self::slot_index(inode)] is Stale,
    {
        let k0 = match self.index_of(inode) {
            Some(k) => k,
            None => {
                return;
            },
        };
        let top_live = match &self.slots[k0] {
            InodeSlot::Live(e) => e.refs > 1,
            _ => {
                return;
            },
        };
        if top_live {
            let ghost s0 = self.slots@;
            let mut slot = InodeSlot::Removed;
            self.slots.set_and_swap(k0, &mut slot);
            match slot {
                InodeSlot::Live(mut e) => {
                    e.refs = e.refs - 1;
                    let mut back = InodeSlot::Live(e);
                    self.slots.set_and_swap(k0, &mut back);
                },
                _ => {
                    proof {
                        assert(false);
                    }
                },
            }
            proof {
                lemma_counts_update(s0, k0 as int, self.slots@[k0 as int]);
                assert(self.slots@ =~= s0.update(k0 as int, self.slots@[k0 as int]));
                assert forall|j: int| 0 <= j < self.slots@.len() && #[trigger] self.slots@[j] is Live implies
                    self.slots@[j]->Live_0.inode@ == j + 2 by {
                    if j != k0 {
                        assert(s0[j] is Live);
                    }
                }
                assert forall|j: int| 0 <= j < s0.len() implies #[trigger] released_from(s0[j], self.slots@[j]) by {
                }
            }
            return;
        }
        let mut worklist: Vec<INodeType> = Vec::new();
        let ghost start = self.slots@;
        let mut slot = InodeSlot::Stale;
        self.slots.set_and_swap(k0, &mut slot);
        proof {
            lemma_counts_update(start, k0 as int, InodeSlot::Stale);
            assert(self.slots@ =~= start.update(k0 as int, InodeSlot::Stale));
            assert forall|j: int| 0 <= j < self.slots@.len() && #[trigger] self.slots@[j] is Live implies
                self.slots@[j]->Live_0.inode@ == j + 2 by {
                assert(start[j] is Live);
            }
            assert forall|j: int| 0 <= j < start.len() implies #[trigger] released_from(start[j], self.slots@[j]) by {
            }
        }
        match slot {
            InodeSlot::Live(e) => match e.content {
                ThisFsContent::Directory(d) => {
                    let mut i: usize = 0;
                    while i < d.content.len()
                        invariant
                            i <= d.content@.len(),
                        decreases d.content@.len() - i,
                    {
                        worklist.push(d.content[i].inode);
                        i += 1;
                    }
                },
                ThisFsContent::File(_) => {},
            },
            _ => {},
        }
        let ghost mid = self.slots@;
        proof {
            lemma_counts_bound(self.slots@);
        }
        while worklist.len() > 0
            invariant
                self.wf(),
                self.root == old(self).root,
                Self::released(start, mid),
                Self::released(mid, self.slots@),
                k0 < mid.len(),
                mid[k0 as int] is Stale,
            decreases count_live(self.slots@), worklist@.len(),
        {
            let ghost s0 = self.slots@;
            let target = worklist.pop().unwrap();
            let k = match self.index_of(target) {
                Some(k) => k,
                None => {
                    continue;
                },
            };
            let dies = match &self.slots[k] {
                InodeSlot::Live(e) => e.refs <= 1,
                _ => {
                    continue;
                },
            };
            let mut slot = InodeSlot::Removed;
            self.slots.set_and_swap(k, &mut slot);
            match slot {
                InodeSlot::Live(mut e) => {
                    if dies {
                        let mut stale = InodeSlot::Stale;
                        self.slots.set_and_swap(k, &mut stale);
                        proof {
                            lemma_counts_update(s0, k as int, InodeSlot::Stale);
                            assert(self.slots@ =~= s0.update(k as int, InodeSlot::Stale));
                        }
                        match e.content {
                            ThisFsContent::Directory(d) => {
                                let mut i: usize = 0;
                                while i < d.content.len()
                                    invariant
                                        i <= d.content@.len(),
                                    decreases d.content@.len() - i,
                                {
                                    worklist.push(d.content[i].inode);
                                    i += 1;
                                }
                            },
                            ThisFsContent::File(_) => {},
                        }
                    } else {
                        e.refs = e.refs - 1;
                        let mut back = InodeSlot::Live(e);
                        self.slots.set_and_swap(k, &mut back);
                        proof {
                            lemma_counts_update(s0, k as int, self.slots@[k as int]);
                            assert(self.slots@ =~= s0.update(k as int, self.slots@[k as int]));
                        }
                    }
                },
                _ => {
                    proof {
                        assert(false);
                    }
                },
            }
            proof {
                assert forall|j: int| 0 <= j < self.slots@.len() && #[trigger] self.slots@[j] is Live implies
                    self.slots@[j]->Live_0.inode@ == j + 2 by {
                    if j != k {
                        assert(s0[j] is Live);
                    }
                }
                assert forall|j: int| 0 <= j < mid.len() implies #[trigger] released_from(mid[j], self.slots@[j]) by {
                    assert(released_from(mid[j], s0[j]));
                }
            }
        }
        proof {
            assert forall|j: int| 0 <= j < start.len() implies #[trigger] released_from(start[j], self.slots@[j]) by {
                assert(released_from(start[j], mid[j]));
                assert(released_from(mid[j], self.slots@[j]));
            }
            assert(released_from(mid[k0 as int], self.slots@[k0 as int]));
            assert(self.slots@[k0 as int] is Stale);
        }
    }

    /// Closes an open node: its reference is released.
    pub fn close(&mut self, token: INodeType)
        requires
            old(self).wf(),
        ensures
            final(self).wf(),
            final(self).root == old(self).root,
            Self::released(old(self).slots@, final(self).slots@),
    {
        self.release(token);
    }
}


impl RamFs {
    /// Slot `b` is the directory of slot `a` without its entry at `i`.
    pub open spec fn entry_removed(a: InodeSlot, b: InodeSlot, i: int) -> bool {
        &&& a matches InodeSlot::Live(ea)
        &&& b matches InodeSlot::Live(eb)
        &&& ea.content matches ThisFsContent::Directory(da)
        &&& eb.content matches ThisFsContent::Directory(db)
        &&& eb.inode == ea.inode
        &&& eb.refs == ea.refs
        &&& db.names() == da.names().remove(i)
        &&& db.inodes() == da.inodes().remove(i)
    }

    /// Makes a directory named `name` in `dir`.
    pub fn mkdir(&mut self, dir: INodeType, name: &str) -> (r: Result<(), ErrorKind>)
        requires
            old(self).wf(),
        ensures
            final(self).wf(),
            final(self).root == old(self).root,
            !old(self).live(dir) ==> r == Err::<(), ErrorKind>(ErrorKind::NotFound),
            old(self).live(dir) && !old(self).is_dir(dir) ==> r == Err::<(), ErrorKind>(ErrorKind::NotADirectory),
            old(self).live(dir) && old(self).is_dir(dir) && spec_find(old(self).dir_names(dir), name@) is Some
                ==> r == Err::<(), ErrorKind>(ErrorKind::AlreadyExists),
            old(self).live(dir) && old(self).is_dir(dir) && spec_find(old(self).dir_names(dir), name@) is None
                && old(self).registered >= INODE_MAX ==> r == Err::<(), ErrorKind>(ErrorKind::FilesystemQuotaExceeded),
            old(self).live(dir) && old(self).is_dir(dir) && spec_find(old(self).dir_names(dir), name@) is None
                && old(self).registered < INODE_MAX ==> r is Ok && exists|new: INodeType| final(self).made(*old(self), dir, name@, new, true),
            r is Err ==> final(self).slots@ == Self::cleaned(old(self).slots@, dir),
    {
        match self.make_node(dir, name, true) {
            Ok(_) => Ok(()),
            Err(e) => Err(e),
        }
    }

    /// Makes an empty file named `name` in `dir` and opens it.
    pub fn creat(&mut self, dir: INodeType, name: &str) -> (r: Result<INodeType, ErrorKind>)
        requires
            old(self).wf(),
        ensures
            final(self).wf(),
            final(self).root == old(self).root,
            !old(self).live(dir) ==> r == Err::<INodeType, ErrorKind>(ErrorKind::NotFound),
            old(self).live(dir) && !old(self).is_dir(dir) ==> r == Err::<INodeType, ErrorKind>(ErrorKind::NotADirectory),
            old(self).live(dir) && old(self).is_dir(dir) && spec_find(old(self).dir_names(dir), name@) is Some
                ==> r == Err::<INodeType, ErrorKind>(ErrorKind::AlreadyExists),
            old(self).live(dir) && old(self).is_dir(dir) && spec_find(old(self).dir_names(dir), name@) is None
                && old(self).registered >= INODE_MAX ==> r == Err::<INodeType, ErrorKind>(ErrorKind::FilesystemQuotaExceeded),
            old(self).live(dir) && old(self).is_dir(dir) && spec_find(old(self).dir_names(dir), name@) is None
                && old(self).registered < INODE_MAX ==> (r matches Ok(new) && final(self).live(new)
                    && final(self).entity(new).refs == 2 && new@ == old(self).next_inode + 1
                    && final(self).dir_names(dir) == old(self).dir_names(dir).push(name@)
                    && final(self).dir_inodes(dir) == old(self).dir_inodes(dir).push(new)),
            r is Err ==> final(self).slots@ == Self::cleaned(old(self).slots@, dir),
    {
        let inode = match self.make_node(dir, name, false) {
            Ok(v) => v,
            Err(e) => {
                return Err(e);
            },
        };
        let ghost mid = *self;
        let r = self.open(inode);
        proof {
            let kd = Self::slot_index(dir);
            let kn = Self::slot_index(inode);
            assert(kd != kn);
            assert(self.slots@[kd] == mid.slots@[kd]);
        }
        r
    }

    /// Removes the entry `name` from `dir`. A directory that still has entries is not
    /// removed. The node that the entry named loses that reference.
    pub fn unlink(&mut self, dir: INodeType, name: &str) -> (r: Result<(), ErrorKind>)
        requires
            old(self).wf(),
        ensures
            final(self).wf(),
            final(self).root == old(self).root,
            !old(self).live(dir) ==> r == Err::<(), ErrorKind>(ErrorKind::NotFound)
                && final(self).slots@ == Self::cleaned(old(self).slots@, dir),
            old(self).live(dir) && !old(self).is_dir(dir) ==> r == Err::<(), ErrorKind>(ErrorKind::NotADirectory)
                && final(self).slots@ == old(self).slots@,
            old(self).live(dir) && old(self).is_dir(dir) ==> match spec_find(old(self).dir_names(dir), name@) {
                None => r == Err::<(), ErrorKind>(ErrorKind::NotFound) && final(self).slots@ == old(self).slots@,
                Some(i) => {
                    let child = old(self).dir_inodes(dir)[i];
                    if old(self).live(child) && old(self).is_dir(child) && old(self).dir_names(child).len() > 0 {
                        r == Err::<(), ErrorKind>(ErrorKind::DirectoryNotEmpty) && final(self).slots@ == old(self).slots@
                    } else {
                        &&& r is Ok
                        &&& exists|removed: Seq<InodeSlot>, rel: Seq<InodeSlot>| {
                            &&& removed.len() == old(self).slots@.len()
                            &&& Self::entry_removed(old(self).slots@[Self::slot_index(dir)], removed[Self::slot_index(dir)], i)
                            &&& forall|j: int| 0 <= j < removed.len() && j != Self::slot_index(dir) ==> #[trigger] removed[j] == old(self).slots@[j]
                            &&& Self::released(removed, rel)
                            &&& final(self).slots@ == Self::cleaned(rel, child)
                        }
                    }
                },
            },
    {
        let name = name.to_owned();
        let k = match self.get_entity(dir) {
            Some(k) => k,
            None => {
                return Err(ErrorKind::NotFound);
            },
        };
        let (index, child) = match &self.slots[k] {
            InodeSlot::Live(e) => match &e.content {
                ThisFsContent::File(_) => {
                    return Err(ErrorKind::NotADirectory);
                },
                ThisFsContent::Directory(d) => {
                    proof {
                        lemma_spec_find(d.names(), name@);
                    }
                    match d.find_index(&name) {
                        Ok(i) => (i, d.content[i].inode),
                        Err(e) => {
                            return Err(e);
                        },
                    }
                },
            },
            _ => {
                proof {
                    assert(false);
                }
                return Err(ErrorKind::NotFound);
            },
        };
        assert(child == old(self).dir_inodes(dir)[index as int]);
        match self.index_of(child) {
            Some(kc) => match &self.slots[kc] {
                InodeSlot::Live(c) => match &c.content {
                    ThisFsContent::Directory(cd) => {
                        if cd.len() > 0 {
                            return Err(ErrorKind::DirectoryNotEmpty);
                        }
                    },
                    ThisFsContent::File(_) => {},
                },
                _ => {},
            },
            None => {},
        }
        let ghost s0 = self.slots@;
        let mut slot = InodeSlot::Removed;
        self.slots.set_and_swap(k, &mut slot);
        match slot {
            InodeSlot::Live(mut e) => {
                match &mut e.content {
                    ThisFsContent::Directory(d) => {
                        d.remove_at(index);
                    },
                    ThisFsContent::File(_) => {},
                }
                let mut back = InodeSlot::Live(e);
                self.slots.set_and_swap(k, &mut back);
            },
            _ => {
                proof {
                    assert(false);
                }
            },
        }
        let ghost removed = self.slots@;
        proof {
            lemma_counts_update(s0, k as int, self.slots@[k as int]);
            assert(self.slots@ =~= s0.update(k as int, self.slots@[k as int]));
            assert forall|j: int| 0 <= j < self.slots@.len() && #[trigger] self.slots@[j] is Live implies
                self.slots@[j]->Live_0.inode@ == j + 2 by {
                if j != k {
                    assert(s0[j] is Live);
                }
            }
            assert(Self::entry_removed(s0[k as int], removed[k as int], index as int));
        }
        self.release(child);
        let ghost rel = self.slots@;
        let _ = self.get_entity(child);
        proof {
            assert(forall|j: int| 0 <= j < removed.len() && j != k ==> #[trigger] removed[j] == old(self).slots@[j]);
        }
        Ok(())
    }
}


impl RamFs {
    /// Lists entry `index` of the directory `dir`.
    pub fn read_dir(&mut self, dir: INodeType, index: usize) -> (r: Option<FsRawDirEntry>)
        requires
            old(self).wf(),
        ensures
            final(self).wf(),
            final(self).root == old(self).root,
            final(self).slots@ == Self::cleaned(old(self).slots@, dir),
            (!old(self).live(dir) || !old(self).is_dir(dir) || index >= old(self).dir_names(dir).len()) ==> r is None,
            old(self).live(dir) && old(self).is_dir(dir) && index < old(self).dir_names(dir).len() ==> {
                let child = old(self).dir_inodes(dir)[index as int];
                &&& old(self).live(child) ==> (r matches Some(e) && e.inode == child && e.name@ == old(self).dir_names(dir)[index as int]
                    && e.metadata == old(self).entity(child).spec_metadata())
                &&& !old(self).live(child) ==> r is None
            },
    {
        let k = match self.get_entity(dir) {
            Some(k) => k,
            None => {
                return None;
            },
        };
        let (child, name) = match &self.slots[k] {
            InodeSlot::Live(e) => match &e.content {
                ThisFsContent::File(_) => {
                    return None;
                },
                ThisFsContent::Directory(d) => {
                    if index >= d.content.len() {
                        return None;
                    }
                    (d.content[index].inode, d.content[index].name.clone())
                },
            },
            _ => {
                return None;
            },
        };
        assert(child == old(self).dir_inodes(dir)[index as int]);
        assert(name@ == old(self).dir_names(dir)[index as int]);
        match self.index_of(child) {
            Some(kc) => match &self.slots[kc] {
                InodeSlot::Live(c) => Some(FsRawDirEntry::new(child, name, c.metadata())),
                _ => None,
            },
            None => None,
        }
    }

    /// What is known of an open node.
    pub fn token_stat(&self, token: INodeType) -> (r: Option<FsRawMetaData>)
        requires
            self.wf(),
        ensures
            self.live(token) ==> r == Some(self.entity(token).spec_metadata()),
            !self.live(token) ==> r is None,
    {
        match self.index_of(token) {
            Some(k) => match &self.slots[k] {
                InodeSlot::Live(e) => Some(e.metadata()),
                _ => None,
            },
            None => None,
        }
    }

    /// Reads from an open file, from `offset` on; a directory cannot be read.
    pub fn read_data(&self, token: INodeType, offset: OffsetType, buf: &mut [u8]) -> (r: Result<usize, ErrorKind>)
        requires
            self.wf(),
        ensures
            !self.live(token) ==> r == Err::<usize, ErrorKind>(ErrorKind::NotFound) && final(buf)@ == old(buf)@,
            self.live(token) && self.is_dir(token) ==> r == Err::<usize, ErrorKind>(ErrorKind::IsADirectory)
                && final(buf)@ == old(buf)@,
            self.live(token) && !self.is_dir(token) ==> ({
                let content = (self.entity(token).content->File_0).content@;
                let off = offset as usize;
                &&& off >= content.len() ==> r == Ok::<usize, ErrorKind>(0) && final(buf)@ == old(buf)@
                &&& off < content.len() ==> {
                    let count = if old(buf)@.len() < content.len() - off {
                        old(buf)@.len() as int
                    } else {
                        content.len() - off
                    };
                    &&& r == Ok::<usize, ErrorKind>(count as usize)
                    &&& final(buf)@ == content.subrange(off as int, off + count) + old(buf)@.skip(count)
                }
            }),
    {
        match self.index_of(token) {
            Some(k) => match &self.slots[k] {
                InodeSlot::Live(e) => match &e.content {
                    ThisFsContent::File(f) => f.read(offset as usize, buf),
                    ThisFsContent::Directory(_) => Err(ErrorKind::IsADirectory),
                },
                _ => Err(ErrorKind::NotFound),
            },
            None => Err(ErrorKind::NotFound),
        }
    }

    /// Writes to an open file at `offset`; a directory cannot be written.
    pub fn write_data(&mut self, token: INodeType, offset: OffsetType, buf: &[u8]) -> (r: Result<usize, ErrorKind>)
        requires
            old(self).wf(),
        ensures
            final(self).wf(),
            final(self).root == old(self).root,
            !old(self).live(token) ==> r == Err::<usize, ErrorKind>(ErrorKind::NotFound) && final(self).slots@ == old(self).slots@,
            old(self).live(token) && old(self).is_dir(token) ==> r == Err::<usize, ErrorKind>(ErrorKind::IsADirectory)
                && final(self).slots@ == old(self).slots@,
            old(self).live(token) && !old(self).is_dir(token) ==> ({
                let k = Self::slot_index(token);
                let f = old(self).entity(token).content->File_0;
                let off = offset as usize;
                &&& final(self).slots@.len() == old(self).slots@.len()
                &&& forall|j: int| 0 <= j < old(self).slots@.len() && j != k ==> #[trigger] final(self).slots@[j] == old(self).slots@[j]
                &&& final(self).live(token)
                &&& final(self).entity(token).inode == old(self).entity(token).inode
                &&& final(self).entity(token).refs == old(self).entity(token).refs
                &&& final(self).entity(token).content matches ThisFsContent::File(g) && ({
                    &&& off + buf@.len() > FILE_SIZE_MAX ==> r == Err::<usize, ErrorKind>(ErrorKind::FilesystemQuotaExceeded)
                        && g.content@ == f.content@ && g.estimated_size == f.estimated_size
                    &&& off + buf@.len() <= FILE_SIZE_MAX ==> ({
                        ||| r == Ok::<usize, ErrorKind>(buf@.len() as usize) && g.content@ == spec_written(f.content@, off as int, buf@)
                            && g.estimated_size == if buf@.len() > 0 { (off + buf@.len()) as usize } else { f.estimated_size }
                        ||| r == Err::<usize, ErrorKind>(ErrorKind::StorageFull) && g.content@ == f.content@
                            && g.estimated_size == f.estimated_size
                    })
                })
            }),
    {
        let k = match self.index_of(token) {
            Some(k) => k,
            None => {
                return Err(ErrorKind::NotFound);
            },
        };
        let is_file = match &self.slots[k] {
            InodeSlot::Live(e) => match &e.content {
                ThisFsContent::File(_) => true,
                ThisFsContent::Directory(_) => {
                    return Err(ErrorKind::IsADirectory);
                },
            },
            _ => {
                return Err(ErrorKind::NotFound);
            },
        };
        let ghost s0 = self.slots@;
        let mut slot = InodeSlot::Removed;
        self.slots.set_and_swap(k, &mut slot);
        let r = match slot {
            InodeSlot::Live(mut e) => {
                let r = match &mut e.content {
                    ThisFsContent::File(f) => f.write(offset as usize, buf),
                    ThisFsContent::Directory(_) => Err(ErrorKind::IsADirectory),
                };
                let mut back = InodeSlot::Live(e);
                self.slots.set_and_swap(k, &mut back);
                r
            },
            _ => {
                proof {
                    assert(false);
                }
                Err(ErrorKind::NotFound)
            },
        };
        proof {
            lemma_counts_update(s0, k as int, self.slots@[k as int]);
            assert(self.slots@ =~= s0.update(k as int, self.slots@[k as int]));
            assert forall|j: int| 0 <= j < self.slots@.len() && #[trigger] self.slots@[j] is Live implies
                self.slots@[j]->Live_0.inode@ == j + 2 by {
                if j != k {
                    assert(s0[j] is Live);
                }
            }
        }
        r
    }

    /// Grows an open file to `length` bytes; a directory cannot be.
    pub fn truncate(&mut self, token: INodeType, length: OffsetType) -> (r: Result<(), ErrorKind>)
        requires
            old(self).wf(),
            length <= usize::MAX,
        ensures
            final(self).wf(),
            final(self).root == old(self).root,
            !old(self).live(token) ==> r == Err::<(), ErrorKind>(ErrorKind::NotFound) && final(self).slots@ == old(self).slots@,
            old(self).live(token) && old(self).is_dir(token) ==> r == Err::<(), ErrorKind>(ErrorKind::IsADirectory)
                && final(self).slots@ == old(self).slots@,
            old(self).live(token) && !old(self).is_dir(token) ==> ({
                let k = Self::slot_index(token);
                let f = old(self).entity(token).content->File_0;
                &&& final(self).slots@.len() == old(self).slots@.len()
                &&& forall|j: int| 0 <= j < old(self).slots@.len() && j != k ==> #[trigger] final(self).slots@[j] == old(self).slots@[j]
                &&& final(self).live(token)
                &&& final(self).entity(token).inode == old(self).entity(token).inode
                &&& final(self).entity(token).refs == old(self).entity(token).refs
                &&& final(self).entity(token).content matches ThisFsContent::File(g) && g.estimated_size == f.estimated_size && ({
                    &&& (length < 0 || length < f.content@.len()) ==> r == Err::<(), ErrorKind>(ErrorKind::InvalidInput) && g.content@ == f.content@
                    &&& (length >= 0 && length >= f.content@.len()) ==> r is Ok
                        && g.content@ == f.content@ + zeros((length - f.content@.len()) as nat)
                })
            }),
    {
        let k = match self.index_of(token) {
            Some(k) => k,
            None => {
                return Err(ErrorKind::NotFound);
            },
        };
        match &self.slots[k] {
            InodeSlot::Live(e) => match &e.content {
                ThisFsContent::File(_) => {},
                ThisFsContent::Directory(_) => {
                    return Err(ErrorKind::IsADirectory);
                },
            },
            _ => {
                return Err(ErrorKind::NotFound);
            },
        }
        let ghost s0 = self.slots@;
        let mut slot = InodeSlot::Removed;
        self.slots.set_and_swap(k, &mut slot);
        let r = match slot {
            InodeSlot::Live(mut e) => {
                let r = match &mut e.content {
                    ThisFsContent::File(f) => f.truncate(length),
                    ThisFsContent::Directory(_) => Err(ErrorKind::IsADirectory),
                };
                let mut back = InodeSlot::Live(e);
                self.slots.set_and_swap(k, &mut back);
                r
            },
            _ => {
                proof {
                    assert(false);
                }
                Err(ErrorKind::NotFound)
            },
        };
        proof {
            lemma_counts_update(s0, k as int, self.slots@[k as int]);
            assert(self.slots@ =~= s0.update(k as int, self.slots@[k as int]));
            assert forall|j: int| 0 <= j < self.slots@.len() && #[trigger] self.slots@[j] is Live implies
                self.slots@[j]->Live_0.inode@ == j + 2 by {
                if j != k {
                    assert(s0[j] is Live);
                }
            }
        }
        r
    }
}


impl RamFs {
    /// Whether the entry `name` of the live directory `dir` may be removed: it must
    /// exist, and a directory it names must be empty.
    pub open spec fn spec_confirm_to_remove(&self, dir: INodeType, name: Seq<char>) -> Result<(), ErrorKind> {
        match spec_find(self.dir_names(dir), name) {
            None => Err(ErrorKind::NotFound),
            Some(i) => {
                let c = self.dir_inodes(dir)[i];
                if self.live(c) && self.is_dir(c) && self.dir_names(c).len() > 0 {
                    Err(ErrorKind::DirectoryNotEmpty)
                } else {
                    Ok(())
                }
            },
        }
    }

    /// The node that a rename would replace in `dir` under `name`: with `replace`, the
    /// node named so, when it may be removed; without, none, and the name must be free.
    pub open spec fn spec_target(&self, dir: INodeType, name: Seq<char>, replace: bool) -> Result<Option<INodeType>, ErrorKind> {
        if replace {
            match self.spec_confirm_to_remove(dir, name) {
                Ok(_) => Ok(Some(self.dir_inodes(dir)[spec_find(self.dir_names(dir), name)->0])),
                Err(ErrorKind::NotFound) => Ok(None),
                Err(e) => Err(e),
            }
        } else {
            if spec_find(self.dir_names(dir), name) is Some {
                Err(ErrorKind::AlreadyExists)
            } else {
                Ok(None)
            }
        }
    }

    fn confirm_to_remove(&self, d: &ThisFsDirectoryContent, name: &String) -> (r: Result<(), ErrorKind>)
        requires
            self.wf(),
        ensures
            match spec_find(d.names(), name@) {
                None => r == Err::<(), ErrorKind>(ErrorKind::NotFound),
                Some(i) => {
                    let c = d.inodes()[i];
                    if self.live(c) && self.is_dir(c) && self.dir_names(c).len() > 0 {
                        r == Err::<(), ErrorKind>(ErrorKind::DirectoryNotEmpty)
                    } else {
                        r is Ok
                    }
                },
            },
    {
        let child = match d.find(name) {
            Ok(c) => c,
            Err(e) => {
                return Err(e);
            },
        };
        match self.index_of(child) {
            Some(kc) => match &self.slots[kc] {
                InodeSlot::Live(c) => match &c.content {
                    ThisFsContent::Directory(cd) => {
                        if cd.len() > 0 {
                            Err(ErrorKind::DirectoryNotEmpty)
                        } else {
                            Ok(())
                        }
                    },
                    ThisFsContent::File(_) => Ok(()),
                },
                _ => Ok(()),
            },
            None => Ok(()),
        }
    }

    /// The node that a rename would replace in the directory `d` under `name`.
    fn target(&self, d: &ThisFsDirectoryContent, name: &String, replace: bool) -> (r: Result<Option<INodeType>, ErrorKind>)
        requires
            self.wf(),
        ensures
            replace ==> match spec_find(d.names(), name@) {
                None => r == Ok::<Option<INodeType>, ErrorKind>(None),
                Some(i) => {
                    let c = d.inodes()[i];
                    if self.live(c) && self.is_dir(c) && self.dir_names(c).len() > 0 {
                        r == Err::<Option<INodeType>, ErrorKind>(ErrorKind::DirectoryNotEmpty)
                    } else {
                        r == Ok::<Option<INodeType>, ErrorKind>(Some(c))
                    }
                },
            },
            !replace ==> if spec_find(d.names(), name@) is Some {
                r == Err::<Option<INodeType>, ErrorKind>(ErrorKind::AlreadyExists)
            } else {
                r == Ok::<Option<INodeType>, ErrorKind>(None)
            },
    {
        if replace {
            match self.confirm_to_remove(d, name) {
                Ok(_) => match d.find(name) {
                    Ok(c) => Ok(Some(c)),
                    Err(_) => Ok(None),
                },
                Err(ErrorKind::NotFound) => Ok(None),
                Err(e) => Err(e),
            }
        } else {
            if d.find(name).is_ok() {
                Err(ErrorKind::AlreadyExists)
            } else {
                Ok(None)
            }
        }
    }

    /// Takes the live node at slot `k` out of the table, leaving a placeholder.
    fn take(&mut self, k: usize) -> (r: ThisFsInodeEntity)
        requires
            old(self).wf(),
            k < old(self).slots@.len(),
            old(self).slots@[k as int] is Live,
        ensures
            r == old(self).slots@[k as int]->Live_0,
            final(self).slots@ == old(self).slots@.update(k as int, InodeSlot::Removed),
            final(self).registered == count_registered(final(self).slots@) + 1,
            final(self).next_inode == old(self).next_inode,
            final(self).root == old(self).root,
    {
        let mut slot = InodeSlot::Removed;
        self.slots.set_and_swap(k, &mut slot);
        proof {
            lemma_counts_update(old(self).slots@, k as int, InodeSlot::Removed);
        }
        match slot {
            InodeSlot::Live(e) => e,
            _ => {
                proof {
                    assert(false);
                }
                vstd::pervasive::unreached()
            },
        }
    }

    /// Puts a node that was taken out back at slot `k`.
    fn put(&mut self, k: usize, e: ThisFsInodeEntity)
        requires
            k < old(self).slots@.len(),
            old(self).slots@[k as int] is Removed,
            e.inode@ == k + 2,
            old(self).registered == count_registered(old(self).slots@) + 1,
            old(self).slots@.len() + 1 == old(self).next_inode,
            old(self).root@ == 2,
            old(self).slots@.len() >= 1,
            forall|j: int| 0 <= j < old(self).slots@.len() && #[trigger] old(self).slots@[j] is Live ==>
                old(self).slots@[j]->Live_0.inode@ == j + 2,
        ensures
            final(self).wf(),
            final(self).slots@ == old(self).slots@.update(k as int, InodeSlot::Live(e)),
            final(self).root == old(self).root,
    {
        let ghost s0 = self.slots@;
        let mut back = InodeSlot::Live(e);
        self.slots.set_and_swap(k, &mut back);
        proof {
            lemma_counts_update(s0, k as int, InodeSlot::Live(e));
            assert forall|j: int| 0 <= j < self.slots@.len() && #[trigger] self.slots@[j] is Live implies
                self.slots@[j]->Live_0.inode@ == j + 2 by {
                if j != k {
                    assert(s0[j] is Live);
                }
            }
        }
    }
}


/// Slot `b` is the directory of slot `a` with the entries `names` naming `inodes`.
pub open spec fn dir_changed(a: InodeSlot, b: InodeSlot, names: Seq<Seq<char>>, inodes: Seq<INodeType>) -> bool {
    &&& a matches InodeSlot::Live(ea)
    &&& b matches InodeSlot::Live(eb)
    &&& ea.content is Directory
    &&& eb.content matches ThisFsContent::Directory(db)
    &&& eb.inode == ea.inode
    &&& eb.refs == ea.refs
    &&& db.names() == names
    &&& db.inodes() == inodes
}

impl RamFs {
    /// The entries of directory `dir` after its entry `old_name` was renamed to
    /// `new_name` in place, where `t` is the node that the rename replaces.
    pub open spec fn renamed_names(&self, dir: INodeType, old_name: Seq<char>, new_name: Seq<char>, t: Option<INodeType>) -> Seq<Seq<char>> {
        let names = self.dir_names(dir);
        let o = spec_find(names, old_name)->0;
        if t is Some {
            names.update(o, new_name).remove(spec_find(names, new_name)->0)
        } else {
            names.update(o, new_name)
        }
    }

    pub open spec fn renamed_inodes(&self, dir: INodeType, new_name: Seq<char>, t: Option<INodeType>) -> Seq<INodeType> {
        if t is Some {
            self.dir_inodes(dir).remove(spec_find(self.dir_names(dir), new_name)->0)
        } else {
            self.dir_inodes(dir)
        }
    }

    /// The entries of directory `dir` after `moved` came in under `name`.
    pub open spec fn arrived_names(&self, dir: INodeType, name: Seq<char>) -> Seq<Seq<char>> {
        if spec_find(self.dir_names(dir), name) is Some {
            self.dir_names(dir)
        } else {
            self.dir_names(dir).push(name)
        }
    }

    pub open spec fn arrived_inodes(&self, dir: INodeType, name: Seq<char>, moved: INodeType) -> Seq<INodeType> {
        match spec_find(self.dir_names(dir), name) {
            Some(n) => self.dir_inodes(dir).update(n, moved),
            None => self.dir_inodes(dir).push(moved),
        }
    }

    /// The table `fin` is `old_fs`'s after the entry `old_name` of `dir` was renamed to
    /// `new_name` in place (`mid`: the table before the replaced node `t` was released).
    pub open spec fn renamed_in_place(old_fs: RamFs, fin: Seq<InodeSlot>, mid: Seq<InodeSlot>, dir: INodeType,
        old_name: Seq<char>, new_name: Seq<char>, t: Option<INodeType>) -> bool {
        let k = Self::slot_index(dir);
        &&& mid.len() == old_fs.slots@.len()
        &&& dir_changed(old_fs.slots@[k], mid[k], old_fs.renamed_names(dir, old_name, new_name, t),
            old_fs.renamed_inodes(dir, new_name, t))
        &&& forall|j: int| 0 <= j < mid.len() && j != k ==> #[trigger] mid[j] == old_fs.slots@[j]
        &&& t is Some ==> Self::released(mid, fin)
        &&& t is None ==> fin == mid
    }

    /// The table `fin` is `old_fs`'s after the entry `old_name` of `old_dir` moved to
    /// `new_dir` under `new_name` (`mid`: the table before a replaced node was released).
    pub open spec fn moved_between(old_fs: RamFs, fin: Seq<InodeSlot>, mid: Seq<InodeSlot>, old_dir: INodeType,
        new_dir: INodeType, old_name: Seq<char>, new_name: Seq<char>) -> bool {
        let ko = Self::slot_index(old_dir);
        let kn = Self::slot_index(new_dir);
        let o = spec_find(old_fs.dir_names(old_dir), old_name)->0;
        let moved = old_fs.dir_inodes(old_dir)[o];
        &&& mid.len() == old_fs.slots@.len()
        &&& dir_changed(old_fs.slots@[ko], mid[ko], old_fs.dir_names(old_dir).remove(o), old_fs.dir_inodes(old_dir).remove(o))
        &&& dir_changed(old_fs.slots@[kn], mid[kn], old_fs.arrived_names(new_dir, new_name),
            old_fs.arrived_inodes(new_dir, new_name, moved))
        &&& forall|j: int| 0 <= j < mid.len() && j != ko && j != kn ==> #[trigger] mid[j] == old_fs.slots@[j]
        &&& spec_find(old_fs.dir_names(new_dir), new_name) is Some ==> Self::released(mid, fin)
        &&& spec_find(old_fs.dir_names(new_dir), new_name) is None ==> fin == mid
    }

    /// Renames the entry `old_name` of `old_dir` to `new_name` in `new_dir`. With
    /// `replace`, an entry already named so is replaced, unless it is a directory that
    /// still has entries; without, the name must be free. Renaming an entry onto one that
    /// names the same node changes nothing.
    pub fn rename(&mut self, old_dir: INodeType, old_name: &str, new_dir: INodeType, new_name: &str, replace: bool) -> (r: Result<(), ErrorKind>)
        requires
            old(self).wf(),
        ensures
            final(self).wf(),
            final(self).root == old(self).root,
            !old(self).live(old_dir) ==> r == Err::<(), ErrorKind>(ErrorKind::NotFound)
                && final(self).slots@ == Self::cleaned(old(self).slots@, old_dir),
            old(self).live(old_dir) && !old(self).is_dir(old_dir) ==> r == Err::<(), ErrorKind>(ErrorKind::NotADirectory)
                && final(self).slots@ == old(self).slots@,
            old(self).live(old_dir) && old(self).is_dir(old_dir) && spec_find(old(self).dir_names(old_dir), old_name@) is None
                ==> r == Err::<(), ErrorKind>(ErrorKind::NotFound) && final(self).slots@ == old(self).slots@,
            old(self).live(old_dir) && old(self).is_dir(old_dir) && spec_find(old(self).dir_names(old_dir), old_name@) is Some
                && new_dir == old_dir ==> {
                let k = Self::slot_index(old_dir);
                let o = spec_find(old(self).dir_names(old_dir), old_name@)->0;
                let moved = old(self).dir_inodes(old_dir)[o];
                match old(self).spec_target(old_dir, new_name@, replace) {
                    Err(e) => r == Err::<(), ErrorKind>(e) && final(self).slots@ == old(self).slots@,
                    Ok(t) => if t == Some(moved) {
                        r is Ok && final(self).slots@ == old(self).slots@
                    } else {
                        &&& r is Ok
                        &&& exists|mid: Seq<InodeSlot>| #[trigger] Self::renamed_in_place(*old(self), final(self).slots@, mid,
                            old_dir, old_name@, new_name@, t)
                    },
                }
            },
            old(self).live(old_dir) && old(self).is_dir(old_dir) && spec_find(old(self).dir_names(old_dir), old_name@) is Some
                && new_dir != old_dir ==> {
                let ko = Self::slot_index(old_dir);
                let kn = Self::slot_index(new_dir);
                let o = spec_find(old(self).dir_names(old_dir), old_name@)->0;
                let moved = old(self).dir_inodes(old_dir)[o];
                if !old(self).live(new_dir) {
                    r == Err::<(), ErrorKind>(ErrorKind::NotFound) && final(self).slots@ == Self::cleaned(old(self).slots@, new_dir)
                } else if !old(self).is_dir(new_dir) {
                    r == Err::<(), ErrorKind>(ErrorKind::NotADirectory) && final(self).slots@ == old(self).slots@
                } else {
                    match old(self).spec_target(new_dir, new_name@, replace) {
                        Err(e) => r == Err::<(), ErrorKind>(e) && final(self).slots@ == old(self).slots@,
                        Ok(t) => if t == Some(moved) {
                            r is Ok && final(self).slots@ == old(self).slots@
                        } else {
                            &&& r is Ok
                            &&& exists|mid: Seq<InodeSlot>| #[trigger] Self::moved_between(*old(self), final(self).slots@, mid,
                                old_dir, new_dir, old_name@, new_name@)
                        },
                    }
                }
            },
    {
        let old_name = old_name.to_owned();
        let new_name = new_name.to_owned();
        let ko = match self.get_entity(old_dir) {
            Some(k) => k,
            None => {
                return Err(ErrorKind::NotFound);
            },
        };
        assert(self.slots@ == old(self).slots@);
        let moved = match &self.slots[ko] {
            InodeSlot::Live(e) => match &e.content {
                ThisFsContent::File(_) => {
                    return Err(ErrorKind::NotADirectory);
                },
                ThisFsContent::Directory(d) => {
                    proof {
                        lemma_spec_find(d.names(), old_name@);
                        assert(d.names() == old(self).dir_names(old_dir));
                        assert(d.inodes() == old(self).dir_inodes(old_dir));
                    }
                    match d.find(&old_name) {
                        Ok(c) => c,
                        Err(e) => {
                            return Err(e);
                        },
                    }
                },
            },
            _ => {
                proof {
                    assert(false);
                }
                return Err(ErrorKind::NotFound);
            },
        };
        if new_dir == old_dir {
            let t = match &self.slots[ko] {
                InodeSlot::Live(e) => match &e.content {
                    ThisFsContent::Directory(d) => {
                        proof {
                            lemma_spec_find(d.names(), new_name@);
                            assert(d.names() == old(self).dir_names(old_dir));
                            assert(d.inodes() == old(self).dir_inodes(old_dir));
                        }
                        self.target(d, &new_name, replace)
                    },
                    ThisFsContent::File(_) => Err(ErrorKind::NotADirectory),
                },
                _ => Err(ErrorKind::NotFound),
            };
            let t = match t {
                Ok(t) => t,
                Err(e) => {
                    return Err(e);
                },
            };
            match t {
                Some(n) => {
                    if n == moved {
                        return Ok(());
                    }
                },
                None => {},
            }
            let ghost s0 = self.slots@;
            let mut e = self.take(ko);
            let gone = match &mut e.content {
                ThisFsContent::Directory(d) => d.force_rename(&old_name, &new_name),
                ThisFsContent::File(_) => Err(ErrorKind::NotADirectory),
            };
            self.put(ko, e);
            let ghost mid = self.slots@;
            proof {
                assert(forall|j: int| 0 <= j < mid.len() && j != ko ==> #[trigger] mid[j] == s0[j]);
            }
            proof {
                let k = ko as int;
                assert(dir_changed(old(self).slots@[k], mid[k], old(self).renamed_names(old_dir, old_name@, new_name@, t),
                    old(self).renamed_inodes(old_dir, new_name@, t)));
            }
            match gone {
                Ok(Some(g)) => {
                    self.release(g);
                },
                _ => {},
            }
            proof {
                assert(Self::renamed_in_place(*old(self), self.slots@, mid, old_dir, old_name@, new_name@, t));
            }
            Ok(())
        } else {
            let kn = match self.get_entity(new_dir) {
                Some(k) => k,
                None => {
                    return Err(ErrorKind::NotFound);
                },
            };
            assert(self.slots@ == old(self).slots@);
            let t = match &self.slots[kn] {
                InodeSlot::Live(e) => match &e.content {
                    ThisFsContent::Directory(d) => {
                        proof {
                            lemma_spec_find(d.names(), new_name@);
                            assert(d.names() == old(self).dir_names(new_dir));
                            assert(d.inodes() == old(self).dir_inodes(new_dir));
                        }
                        self.target(d, &new_name, replace)
                    },
                    ThisFsContent::File(_) => {
                        return Err(ErrorKind::NotADirectory);
                    },
                },
                _ => {
                    proof {
                        assert(false);
                    }
                    return Err(ErrorKind::NotFound);
                },
            };
            let t = match t {
                Ok(t) => t,
                Err(e) => {
                    return Err(e);
                },
            };
            match t {
                Some(n) => {
                    if n == moved {
                        return Ok(());
                    }
                },
                None => {},
            }
            let ghost s0 = self.slots@;
            let mut eo = self.take(ko);
            match &mut eo.content {
                ThisFsContent::Directory(d) => {
                    proof {
                        lemma_spec_find(d.names(), old_name@);
                    }
                    match d.find_index(&old_name) {
                        Ok(i) => {
                            let _ = d.remove_at(i);
                        },
                        Err(_) => {},
                    }
                },
                ThisFsContent::File(_) => {},
            }
            self.put(ko, eo);
            let mut en = self.take(kn);
            let replaced = match &mut en.content {
                ThisFsContent::Directory(d) => d.append_or_replace(&new_name, moved),
                ThisFsContent::File(_) => None,
            };
            self.put(kn, en);
            let ghost mid = self.slots@;
            proof {
                assert(forall|j: int| 0 <= j < mid.len() && j != ko && j != kn ==> #[trigger] mid[j] == s0[j]);
            }
            proof {
                assert(dir_changed(old(self).slots@[ko as int], mid[ko as int], old(self).dir_names(old_dir).remove(
                    spec_find(old(self).dir_names(old_dir), old_name@)->0),
                    old(self).dir_inodes(old_dir).remove(spec_find(old(self).dir_names(old_dir), old_name@)->0)));
                assert(dir_changed(old(self).slots@[kn as int], mid[kn as int], old(self).arrived_names(new_dir, new_name@),
                    old(self).arrived_inodes(new_dir, new_name@, moved)));
            }
            match replaced {
                Some(g) => {
                    self.release(g);
                },
                None => {},
            }
            proof {
                assert(Self::moved_between(*old(self), self.slots@, mid, old_dir, new_dir, old_name@, new_name@));
            }
            Ok(())
        }
    }
}


/// No two entries of a directory share a name.
pub open spec fn distinct_names(names: Seq<Seq<char>>) -> bool {
    forall|i: int, j: int| 0 <= i < j < names.len() ==> names[i] != names[j]
}

/// A node made in a directory is what looking its name up there finds.
pub proof fn lemma_made_then_found(fs: RamFs, old_fs: RamFs, dir: INodeType, name: Seq<char>, new: INodeType, is_dir: bool)
    requires
        fs.made(old_fs, dir, name, new, is_dir),
        spec_find(old_fs.dir_names(dir), name) is None,
    ensures
        spec_find(fs.dir_names(dir), name) == Some(old_fs.dir_names(dir).len() as int),
        fs.dir_inodes(dir)[old_fs.dir_names(dir).len() as int] == new,
{
    let names = fs.dir_names(dir);
    let n = old_fs.dir_names(dir).len() as int;
    lemma_spec_find(old_fs.dir_names(dir), name);
    lemma_spec_find(names, name);
    assert(names[n] == name);
    assert forall|j: int| 0 <= j < n implies names[j] != name by {
        assert(names[j] == old_fs.dir_names(dir)[j]);
    }
}

/// The operations keep the names of a directory distinct: adding a name that is not
/// there, removing an entry, renaming an entry in place, and bringing an entry in.
pub proof fn lemma_names_stay_distinct(names: Seq<Seq<char>>, name: Seq<char>, i: int, o: int)
    requires
        distinct_names(names),
    ensures
        spec_find(names, name) is None ==> distinct_names(names.push(name)),
        0 <= i < names.len() ==> distinct_names(names.remove(i)),
        0 <= o < names.len() && spec_find(names, name) is None ==> distinct_names(names.update(o, name)),
        0 <= o < names.len() && spec_find(names, name) is Some && spec_find(names, name)->0 != o
            ==> distinct_names(names.update(o, name).remove(spec_find(names, name)->0)),
{
    lemma_spec_find(names, name);
    if 0 <= o < names.len() {
        if let Some(n) = spec_find(names, name) {
            if n != o {
                let u = names.update(o, name);
                let w = u.remove(n);
                assert forall|a: int, b: int| 0 <= a < b < w.len() implies w[a] != w[b] by {
                    let a2 = if a < n { a } else { a + 1 };
                    let b2 = if b < n { b } else { b + 1 };
                    assert(w[a] == u[a2]);
                    assert(w[b] == u[b2]);
                    assert(a2 != b2);
                    if a2 == o {
                        assert(u[b2] == names[b2]);
                        assert(b2 != n);
                    } else if b2 == o {
                        assert(u[a2] == names[a2]);
                    } else {
                    }
                }
            }
        }
    }
}

/// In a directory whose names are distinct, a removed entry's name is no longer found.
pub proof fn lemma_removed_not_found(names: Seq<Seq<char>>, name: Seq<char>)
    requires
        distinct_names(names),
        spec_find(names, name) is Some,
    ensures
        spec_find(names.remove(spec_find(names, name)->0), name) is None,
{
    lemma_spec_find(names, name);
    let i = spec_find(names, name)->0;
    let w = names.remove(i);
    lemma_spec_find(w, name);
    assert forall|j: int| 0 <= j < w.len() implies w[j] != name by {
        if j < i {
            assert(w[j] == names[j]);
        } else {
            assert(w[j] == names[j + 1]);
        }
    }
}

/// What a file reads back is what was written to it last: after `buf` was written at
/// `offset`, the bytes from `offset` on are `buf`, and the bytes before are what they
/// were (zero in a gap).
pub proof fn lemma_read_after_write(content: Seq<u8>, offset: nat, buf: Seq<u8>)
    requires
        buf.len() > 0,
    ensures
        spec_written(content, offset as int, buf).len() == offset + buf.len(),
        spec_written(content, offset as int, buf).subrange(offset as int, (offset + buf.len()) as int) == buf,
        forall|i: int| 0 <= i < offset ==> #[trigger] spec_written(content, offset as int, buf)[i]
            == if i < content.len() { content[i] } else { 0u8 },
{
    let w = spec_written(content, offset as int, buf);
    let kept = if offset < content.len() { content.take(offset as int) } else { content };
    assert(w.subrange(offset as int, (offset + buf.len()) as int) =~= buf);
}

impl RamFs {
    /// What looking `name` up in `dir` gives.
    pub open spec fn spec_lookup(&self, dir: INodeType, name: Seq<char>) -> Result<INodeType, ErrorKind> {
        if !self.live(dir) {
            Err(ErrorKind::NotFound)
        } else if !self.is_dir(dir) {
            Err(ErrorKind::NotADirectory)
        } else {
            match spec_find(self.dir_names(dir), name) {
                Some(i) => Ok(self.dir_inodes(dir)[i]),
                None => Err(ErrorKind::NotFound),
            }
        }
    }

    /// Where the path `comps`, one name after another, leads from `dir`: the
    /// first lookup that fails decides the error.
    pub open spec fn spec_walk(&self, dir: INodeType, comps: Seq<Seq<char>>) -> Result<INodeType, ErrorKind>
        decreases comps.len(),
    {
        if comps.len() == 0 {
            Ok(dir)
        } else {
            match self.spec_lookup(dir, comps[0]) {
                Ok(next) => self.spec_walk(next, comps.drop_first()),
                Err(e) => Err(e),
            }
        }
    }

    /// The same nodes are alive, with the same contents.
    pub open spec fn same_tree(&self, other: &Self) -> bool {
        forall|x: INodeType|
            #![trigger self.live(x)]
            #![trigger other.live(x)]
            self.live(x) == other.live(x) && (self.live(x) ==> self.entity(x) == other.entity(x))
    }

    /// Follows the path components from `dir`, one lookup each.
    #[verifier::loop_isolation(false)]
    pub fn walk(&mut self, dir: INodeType, comps: &Vec<String>) -> (r: Result<INodeType, ErrorKind>)
        requires
            old(self).wf(),
        ensures
            final(self).wf(),
            final(self).root == old(self).root,
            final(self).same_tree(old(self)),
            r == old(self).spec_walk(dir, crate::fs::path::string_views(comps@)),
    {
        let ghost init = *self;
        let ghost all = crate::fs::path::string_views(comps@);
        let mut cur = dir;
        let mut i: usize = 0;
        let n = comps.len();
        assert(all.subrange(0, n as int) =~= all);
        while i < n
            invariant
                self.wf(),
                self.root == init.root,
                self.same_tree(&init),
                n == comps@.len(),
                all == crate::fs::path::string_views(comps@),
                i <= n,
                init.spec_walk(dir, all) == init.spec_walk(cur, all.subrange(i as int, n as int)),
            decreases n - i,
        {
            let ghost before = *self;
            let ghost rest = all.subrange(i as int, n as int);
            assert(rest[0] == comps@[i as int]@);
            assert(rest.drop_first() =~= all.subrange(i + 1, n as int));
            proof {
                assert(init.live(cur) == before.live(cur));
            }
            let step = self.lookup(cur, comps[i].as_str());
            proof {
                Self::lemma_cleaned_same_tree(&before, self, cur);
                assert forall|x: INodeType| #![trigger self.live(x)] #![trigger init.live(x)]
                    self.live(x) == init.live(x) && (self.live(x) ==> self.entity(x) == init.entity(x)) by {
                    assert(before.live(x) == init.live(x));
                }
                if init.live(cur) {
                    assert(before.entity(cur) == init.entity(cur));
                }
            }
            match step {
                Ok(next) => {
                    cur = next;
                },
                Err(e) => {
                    return Err(e);
                },
            }
            i = i + 1;
        }
        proof {
            assert(all.subrange(n as int, n as int).len() == 0);
        }
        Ok(cur)
    }

    /// Looking a name up only forgets a dead node: the live nodes stay as they were.
    proof fn lemma_cleaned_same_tree(a: &Self, b: &Self, inode: INodeType)
        requires
            b.slots@ == Self::cleaned(a.slots@, inode),
        ensures
            b.same_tree(a),
    {
        assert forall|x: INodeType| #![trigger b.live(x)] #![trigger a.live(x)]
            b.live(x) == a.live(x) && (b.live(x) ==> b.entity(x) == a.entity(x)) by {
            let k = Self::slot_index(x);
            if 0 <= k < a.slots@.len() {
                assert(b.slots@[k] is Live <==> a.slots@[k] is Live);
            }
        }
    }
}

} // verus!
