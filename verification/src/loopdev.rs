//! Loop devices: block devices that are backed by a file.

use vstd::prelude::*;
use vstd::string::{StrSliceExecFns, StringExecFns};

verus! {

/// A bitmap of the `bitmap` crate with eight entries of one bit each, on
/// one word of storage.
#[verifier::external_body]
pub struct IdBitmap {
    bits: bitmap::Bitmap<[usize; 1], bitmap::OneBit>,
}

/// Eight entries, each 0.
pub open spec fn eight_zeros() -> Seq<u64> {
    Seq::new(8, |i: int| 0u64)
}

/// The values that a bitmap of single bits holds, entry by entry.
pub uninterp spec fn bitmap_values(bits: IdBitmap) -> Seq<u64>;

/// `bitmap::Bitmap::from_storage` with eight entries of one bit on one word
/// that is zero: the source shows that this always gives a bitmap, and that
/// each of its eight entries reads as 0.
#[verifier::external_body]
fn bitmap_new() -> (made: Option<IdBitmap>)
    ensures
        made is Some,
        bitmap_values(made->0) == eight_zeros(),
{
    bitmap::Bitmap::from_storage(8, (), [0usize; 1]).map(|bits| IdBitmap { bits })
}

/// `bitmap::Bitmap::get`: the value of entry `i`, and nothing where the
/// bitmap has no entry `i`.
#[verifier::external_body]
fn bitmap_get(bits: &IdBitmap, i: usize) -> (value: Option<u64>)
    ensures
        value == (if i < bitmap_values(*bits).len() {
            Some(bitmap_values(*bits)[i as int])
        } else {
            None::<u64>
        }),
{
    bits.bits.get(i)
}

/// `bitmap::Bitmap::set`: entry `i` takes `value` and `true` is returned;
/// where the bitmap has no entry `i`, or `value` does not fit into one bit,
/// nothing changes and `false` is returned.
#[verifier::external_body]
fn bitmap_set(bits: &mut IdBitmap, i: usize, value: u64) -> (done: bool)
    ensures
        done == (i < bitmap_values(*old(bits)).len() && value <= 1),
        done ==> bitmap_values(*final(bits)) == bitmap_values(*old(bits)).update(i as int, value),
        !done ==> bitmap_values(*final(bits)) == bitmap_values(*old(bits)),
{
    bits.bits.set(i, value)
}

/// The size of a block of a disk, in bytes.
pub const LBA_SIZE: usize = 512;

/// The number of loop devices that can exist at a time.
pub const MAX_DEVICES: usize = 8;

/// The major number of loop devices.
pub const LOOP_MAJOR: u32 = 7;

/// Why an operation on a loop device failed.
#[derive(Clone, Copy, Debug, PartialEq, Eq, Structural)]
pub enum LoopError {
    /// Reading or writing the file behind the device failed.
    Io,
    /// The device does not take writes.
    ReadOnly,
    /// No loop device is free.
    NoDevice,
    /// The device cannot be used in this way.
    NotSupported,
}

/// The decimal digit `d` as a character.
pub open spec fn digit_char(d: nat) -> char {
    (48 + d) as char
}

/// A number written in decimal digits, without leading zeros.
pub open spec fn decimal_digits(n: nat) -> Seq<char>
    decreases n,
{
    if n < 10 {
        seq![digit_char(n)]
    } else {
        decimal_digits(n / 10).push(digit_char(n % 10))
    }
}

/// The name of the loop device with the given number: `loop` and the number.
pub open spec fn loop_name(id: nat) -> Seq<char> {
    "loop"@ + decimal_digits(id)
}

/// `format!` of a number: the number in decimal digits, without leading
/// zeros.
#[verifier::external_body]
fn format_number(number: usize) -> (digits: String)
    ensures
        digits@ == decimal_digits(number as nat),
{
    format!("{}", number)
}

/// The name and the number of a device.
#[derive(Debug)]
pub struct DevName {
    name: String,
    id: usize,
}

impl DevName {
    /// The name.
    pub closed spec fn name_view(&self) -> Seq<char> {
        self.name@
    }

    /// The number.
    pub closed spec fn id_view(&self) -> usize {
        self.id
    }

    /// The device name made of a name and a number.
    pub fn new(name: String, id: usize) -> (devname: DevName)
        ensures
            devname.name_view() == name@,
            devname.id_view() == id,
    {
        DevName { name, id }
    }

    /// The name.
    pub fn name(&self) -> (name: &str)
        ensures
            name@ == self.name_view(),
    {
        self.name.as_str()
    }

    /// The number.
    pub fn id(&self) -> (id: usize)
        ensures
            id == self.id_view(),
    {
        self.id
    }
}

impl Clone for DevName {
    fn clone(&self) -> (copy: DevName)
        ensures
            copy == *self,
    {
        DevName { name: self.name.clone(), id: self.id }
    }
}

/// Hands out the numbers of the loop devices, each to one device at a time.
pub struct LoopManager {
    id_bmp: IdBitmap,
    devname: [Option<DevName>; 8],
}

impl LoopManager {
    /// Which numbers are taken.
    pub closed spec fn taken(&self) -> Seq<bool> {
        Seq::new(bitmap_values(self.id_bmp).len(), |i: int| bitmap_values(self.id_bmp)[i] == 1)
    }

    /// The names of the devices that hold a number.
    pub closed spec fn names(&self) -> Seq<Option<DevName>> {
        self.devname@
    }

    /// There are eight numbers, and exactly those that are taken have a
    /// name, which is the name of the loop device of that number.
    pub open spec fn wf(&self) -> bool {
        &&& self.taken().len() == MAX_DEVICES
        &&& self.names().len() == MAX_DEVICES
        &&& forall|i: int|
            0 <= i < MAX_DEVICES ==> (#[trigger] self.taken()[i] <==> self.names()[i] is Some)
        &&& forall|i: int|
            0 <= i < MAX_DEVICES && self.names()[i] is Some ==> (#[trigger] self.names()[i])->0.id_view()
                == i && self.names()[i]->0.name_view() == loop_name(i as nat)
    }

    /// The first number that is not taken, if there is one.
    pub open spec fn first_free(&self) -> Option<int> {
        if exists|i: int| 0 <= i < self.taken().len() && !self.taken()[i] {
            Some(
                choose|i: int|
                    0 <= i < self.taken().len() && !self.taken()[i] && forall|j: int|
                        0 <= j < i ==> self.taken()[j],
            )
        } else {
            None
        }
    }

    /// A manager with every number free.
    pub fn new() -> (manager: LoopManager)
        ensures
            manager.wf(),
            forall|i: int| 0 <= i < MAX_DEVICES ==> !manager.taken()[i],
    {
        let id_bmp: IdBitmap = match bitmap_new() {
            Some(bits) => bits,
            None => vstd::pervasive::unreached(),
        };
        let devname: [Option<DevName>; 8] = [None, None, None, None, None, None, None, None];
        LoopManager { id_bmp, devname }
    }

    /// The first number that is not taken.
    fn first_false_index(&self) -> (found: Option<usize>)
        requires
            self.wf(),
        ensures
            found matches Some(idx) ==> idx < MAX_DEVICES && !self.taken()[idx as int] && forall|
                j: int,
            |
                0 <= j < idx ==> self.taken()[j],
            found is None ==> forall|j: int| 0 <= j < MAX_DEVICES ==> self.taken()[j],
    {
        let mut idx: usize = 0;
        while idx < MAX_DEVICES
            invariant
                idx <= MAX_DEVICES,
                self.wf(),
                forall|j: int| 0 <= j < idx ==> self.taken()[j],
            decreases MAX_DEVICES - idx,
        {
            match bitmap_get(&self.id_bmp, idx) {
                Some(value) => {
                    if value != 1 {
                        return Some(idx);
                    }
                },
                None => {},
            }
            idx += 1;
        }
        None
    }

    /// Takes the first free number for a device and returns the name of
    /// that device. Without a free number nothing is taken.
    pub fn alloc_id(&mut self) -> (name: Option<DevName>)
        requires
            old(self).wf(),
        ensures
            final(self).wf(),
            name matches Some(devname) ==> {
                &&& devname.id_view() < MAX_DEVICES
                &&& !old(self).taken()[devname.id_view() as int]
                &&& forall|j: int| 0 <= j < devname.id_view() ==> old(self).taken()[j]
                &&& devname.name_view() == loop_name(devname.id_view() as nat)
                &&& final(self).taken() == old(self).taken().update(
                    devname.id_view() as int,
                    true,
                )
                &&& final(self).names() == old(self).names().update(
                    devname.id_view() as int,
                    Some(devname),
                )
            },
            name is None ==> {
                &&& forall|j: int| 0 <= j < MAX_DEVICES ==> old(self).taken()[j]
                &&& final(self).taken() == old(self).taken()
                &&& final(self).names() == old(self).names()
            },
    {
        let ghost before = *self;
        let idx: usize = match self.first_false_index() {
            Some(idx) => idx,
            None => {
                return None;
            },
        };
        let _ = bitmap_set(&mut self.id_bmp, idx, 1);
        let name: DevName = Self::format_name(idx);
        self.devname[idx] = Some(name.clone());
        assert(self.taken() =~= before.taken().update(idx as int, true));
        assert(self.names() =~= before.names().update(idx as int, Some(name)));
        Some(name)
    }

    /// The name of the loop device with the given number.
    fn format_name(id: usize) -> (name: DevName)
        ensures
            name.id_view() == id,
            name.name_view() == loop_name(id as nat),
    {
        let digits: String = format_number(id);
        let name: String = String::from_str("loop").concat(digits.as_str());
        DevName::new(name, id)
    }

    /// Gives a number back. A number that no device can have is passed
    /// over.
    pub fn free_id(&mut self, id: usize)
        requires
            old(self).wf(),
        ensures
            final(self).wf(),
            id < MAX_DEVICES ==> final(self).taken() == old(self).taken().update(id as int, false)
                && final(self).names() == old(self).names().update(id as int, None),
            id >= MAX_DEVICES ==> final(self).taken() == old(self).taken() && final(self).names()
                == old(self).names(),
    {
        if id >= MAX_DEVICES {
            return ;
        }
        let ghost before = *self;
        let _ = bitmap_set(&mut self.id_bmp, id, 0);
        self.devname[id] = None;
        assert(self.taken() =~= before.taken().update(id as int, false));
        assert(self.names() =~= before.names().update(id as int, None));
    }

    /// Whether the given number is taken.
    pub fn is_taken(&self, id: usize) -> (taken: bool)
        requires
            self.wf(),
        ensures
            taken == (id < MAX_DEVICES && self.taken()[id as int]),
    {
        match bitmap_get(&self.id_bmp, id) {
            Some(value) => value == 1,
            None => false,
        }
    }
}

/// What a loop device knows of the file behind it and of how it may be used.
#[derive(Debug, Clone, Copy)]
pub struct LoopDeviceInner {
    /// The size of the file, in bytes.
    pub file_size: usize,
    /// The minor number of the device.
    pub minor: u32,
    /// Where in the file the device begins.
    pub offset: usize,
    /// The greatest size the device may have; 0 for no limit.
    pub size_limit: usize,
    /// Whether the file is read and written without caches.
    pub user_direct_io: bool,
    /// Whether the device refuses writes.
    pub read_only: bool,
    /// Whether the device is shown.
    pub visible: bool,
}

/// A part of the file that is to be read or written: `len` bytes from byte
/// `offset` on.
#[derive(Debug, Clone, Copy, PartialEq, Eq, Structural)]
pub struct FileRange {
    pub offset: usize,
    pub len: usize,
}

/// A run of blocks: from `lba_start` up to, and without, `lba_end`.
#[derive(Debug, Clone, Copy, PartialEq, Eq, Structural)]
pub struct GeneralBlockRange {
    pub lba_start: usize,
    pub lba_end: usize,
}

/// What a device tells of itself as a file.
#[derive(Debug, Clone, Copy, PartialEq, Eq, Structural)]
pub struct Metadata {
    pub dev_id: usize,
    pub inode_id: usize,
    pub size: i64,
    pub blk_size: usize,
    pub blocks: usize,
    pub mode: u32,
    pub nlinks: usize,
    pub uid: usize,
    pub gid: usize,
    pub raw_dev_major: u32,
    pub raw_dev_minor: u32,
}

/// A block device that is backed by a file.
#[derive(Debug)]
pub struct LoopDevice {
    inner: LoopDeviceInner,
    devname: DevName,
}

impl View for LoopDevice {
    type V = LoopDeviceInner;

    closed spec fn view(&self) -> LoopDeviceInner {
        self.inner
    }
}

impl LoopDevice {
    /// The name of the device.
    pub closed spec fn devname(&self) -> DevName {
        self.devname
    }

    /// Binds a file to the first free loop device. `file_size` is what the
    /// file reports as its size, or nothing where it reports none.
    ///
    /// Without a free device there is no result. Nor is there one where
    /// the file reports no size; the number of the device stays taken then.
    pub fn new(manager: &mut LoopManager, file_size: Option<usize>) -> (device: Option<LoopDevice>)
        requires
            old(manager).wf(),
        ensures
            final(manager).wf(),
            device is Some <==> file_size is Some && old(manager).first_free() is Some,
            old(manager).first_free() matches Some(id) ==> final(manager).taken() == old(
                manager,
            ).taken().update(id, true),
            old(manager).first_free() is None ==> final(manager).taken() == old(manager).taken(),
            device matches Some(made) ==> {
                &&& made@ == (LoopDeviceInner {
                    file_size: file_size->0,
                    minor: 0,
                    offset: 0,
                    size_limit: 0,
                    user_direct_io: false,
                    read_only: false,
                    visible: true,
                })
                &&& Some(made.devname().id_view() as int) == old(manager).first_free()
                &&& made.devname().name_view() == loop_name(made.devname().id_view() as nat)
            },
    {
        let ghost before = *manager;
        let devname: DevName = match manager.alloc_id() {
            Some(devname) => devname,
            None => {
                return None;
            },
        };
        assert(before.first_free() == Some(devname.id_view() as int)) by {
            let found = devname.id_view() as int;
            assert(!before.taken()[found]);
            let chosen = before.first_free()->0;
            if chosen < found {
                assert(before.taken()[chosen]);
            }
            if found < chosen {
                assert(before.taken()[found]);
            }
        }
        let file_size: usize = match file_size {
            Some(size) => size,
            None => {
                return None;
            },
        };
        Some(
            LoopDevice {
                inner: LoopDeviceInner {
                    file_size,
                    minor: 0,
                    offset: 0,
                    size_limit: 0,
                    user_direct_io: false,
                    read_only: false,
                    visible: true,
                },
                devname,
            },
        )
    }

    /// Puts another file behind the device. `file_size` is what the file
    /// reports as its size, or the failure to report one, which is handed
    /// on and changes nothing.
    pub fn set_file(&mut self, file_size: Result<usize, LoopError>) -> (done: Result<(), LoopError>)
        ensures
            final(self).devname() == old(self).devname(),
            file_size matches Ok(size) ==> done == Ok::<(), LoopError>(()) && final(self)@ == (
            LoopDeviceInner { file_size: size, ..old(self)@ }),
            file_size matches Err(e) ==> done == Err::<(), LoopError>(e) && final(self)@ == old(
                self,
            )@,
    {
        let file_size: usize = file_size?;
        self.inner.file_size = file_size;
        Ok(())
    }

    /// The size of the file behind the device, in bytes.
    pub fn file_size(&self) -> (size: usize)
        ensures
            size == self@.file_size,
    {
        self.inner.file_size
    }

    /// Where in the file the device begins, in bytes.
    pub fn offset(&self) -> (offset: usize)
        ensures
            offset == self@.offset,
    {
        self.inner.offset
    }

    /// Makes the device refuse writes, or take them again.
    pub fn set_read_only(&mut self, read_only: bool)
        ensures
            final(self).devname() == old(self).devname(),
            final(self)@ == (LoopDeviceInner { read_only, ..old(self)@ }),
    {
        self.inner.read_only = read_only;
    }

    /// Whether the device refuses writes.
    pub fn is_read_only(&self) -> (read_only: bool)
        ensures
            read_only == self@.read_only,
    {
        self.inner.read_only
    }

    /// The name of the device.
    pub fn dev_name(&self) -> (devname: &DevName)
        ensures
            *devname == self.devname(),
    {
        &self.devname
    }

    /// What the device tells of itself as a file: a block device of the
    /// size of the file behind it, in blocks of 512 bytes, the last of which
    /// may be filled in part.
    pub fn metadata(&self) -> (metadata: Metadata)
        requires
            self@.file_size + LBA_SIZE <= usize::MAX,
            self@.file_size <= i64::MAX,
        ensures
            metadata == (Metadata {
                dev_id: 0,
                inode_id: 0,
                size: self@.file_size as i64,
                blk_size: LBA_SIZE,
                blocks: ((self@.file_size + LBA_SIZE - 1) / LBA_SIZE as int) as usize,
                mode: 0o644,
                nlinks: 1,
                uid: 0,
                gid: 0,
                raw_dev_major: LOOP_MAJOR,
                raw_dev_minor: self@.minor,
            }),
    {
        Metadata {
            dev_id: 0,
            inode_id: 0,
            size: self.inner.file_size as i64,
            blk_size: LBA_SIZE,
            blocks: (self.inner.file_size + LBA_SIZE - 1) / LBA_SIZE,
            mode: 0o644,
            nlinks: 1,
            uid: 0,
            gid: 0,
            raw_dev_major: LOOP_MAJOR,
            raw_dev_minor: self.inner.minor,
        }
    }

    /// The blocks of the device: as many as the file holds in full.
    pub fn disk_range(&self) -> (range: GeneralBlockRange)
        ensures
            range == (GeneralBlockRange {
                lba_start: 0,
                lba_end: (self@.file_size / LBA_SIZE) as usize,
            }),
    {
        let blocks: usize = self.inner.file_size / LBA_SIZE;
        GeneralBlockRange { lba_start: 0, lba_end: blocks }
    }

    /// The part of the file that holds `count` blocks from block
    /// `lba_id_start` on.
    pub open spec fn file_range(&self, lba_id_start: usize, count: usize) -> FileRange {
        FileRange {
            offset: (self@.offset + lba_id_start * LBA_SIZE) as usize,
            len: (count * LBA_SIZE) as usize,
        }
    }

    /// The part of the file that is to be read for `count` blocks from block
    /// `lba_id_start` on.
    pub fn read_at_sync(&self, lba_id_start: usize, count: usize) -> (range: FileRange)
        requires
            self@.offset + lba_id_start * LBA_SIZE <= usize::MAX,
            count * LBA_SIZE <= usize::MAX,
        ensures
            range == self.file_range(lba_id_start, count),
    {
        let offset: usize = self.inner.offset + lba_id_start * LBA_SIZE;
        let len: usize = count * LBA_SIZE;
        FileRange { offset, len }
    }

    /// The part of the file that is to be written for `count` blocks from
    /// block `lba_id_start` on. A device that refuses writes has none.
    pub fn write_at_sync(&self, lba_id_start: usize, count: usize) -> (range: Result<
        FileRange,
        LoopError,
    >)
        requires
            self@.offset + lba_id_start * LBA_SIZE <= usize::MAX,
            count * LBA_SIZE <= usize::MAX,
        ensures
            self@.read_only ==> range == Err::<FileRange, LoopError>(LoopError::ReadOnly),
            !self@.read_only ==> range == Ok::<FileRange, LoopError>(
                self.file_range(lba_id_start, count),
            ),
    {
        if self.inner.read_only {
            return Err(LoopError::ReadOnly);
        }
        let offset: usize = self.inner.offset + lba_id_start * LBA_SIZE;
        let len: usize = count * LBA_SIZE;
        Ok(FileRange { offset, len })
    }

    /// What reading or writing the file came to, as the device reports it:
    /// the number of bytes, or, whatever went wrong with the file, a
    /// failure of input and output.
    pub fn io_result(moved: Option<usize>) -> (done: Result<usize, LoopError>)
        ensures
            moved matches Some(n) ==> done == Ok::<usize, LoopError>(n),
            moved is None ==> done == Err::<usize, LoopError>(LoopError::Io),
    {
        match moved {
            Some(n) => Ok(n),
            None => Err(LoopError::Io),
        }
    }

    /// Reading the device as a file is not supported.
    pub fn read_at(&self, _offset: usize, _len: usize, _buf: &mut [u8]) -> (done: Result<
        usize,
        LoopError,
    >)
        ensures
            done == Err::<usize, LoopError>(LoopError::NotSupported),
            final(_buf)@ == old(_buf)@,
    {
        Err(LoopError::NotSupported)
    }

    /// Writing the device as a file is not supported.
    pub fn write_at(&self, _offset: usize, _len: usize, _buf: &[u8]) -> (done: Result<
        usize,
        LoopError,
    >)
        ensures
            done == Err::<usize, LoopError>(LoopError::NotSupported),
    {
        Err(LoopError::NotSupported)
    }

    /// Listing the device as a directory is not supported.
    pub fn list(&self) -> (done: Result<Vec<String>, LoopError>)
        ensures
            done is Err,
            done->Err_0 == LoopError::NotSupported,
    {
        Err(LoopError::NotSupported)
    }

    /// The size of a block, as a power of two.
    pub fn blk_size_log2(&self) -> (log2: u8)
        ensures
            log2 == 9,
    {
        9
    }

    /// The size of a block, in bytes.
    pub fn block_size(&self) -> (size: usize)
        ensures
            size == LBA_SIZE,
    {
        LBA_SIZE
    }
}

/// The bus that loop devices sit on.
#[derive(Debug)]
pub struct LoopBus {}

impl LoopBus {
    /// The bus.
    pub fn new() -> (bus: LoopBus) {
        LoopBus {  }
    }

    /// The name of the bus.
    pub fn name(&self) -> (name: String)
        ensures
            name@ == "loop"@,
    {
        String::from_str("loop")
    }

    /// The name that devices on the bus begin with.
    pub fn dev_name(&self) -> (name: String)
        ensures
            name@ == "loop"@,
    {
        String::from_str("loop")
    }

    /// Whether a device of the given name belongs on this bus: every device
    /// whose name begins with `loop` does.
    pub fn match_device(&self, device_name: &str) -> (matched: Result<bool, LoopError>)
        ensures
            matched == Ok::<bool, LoopError>(
                device_name@.len() >= 4 && device_name@.subrange(0, 4) == "loop"@,
            ),
    {
        proof {
            reveal_strlit("loop");
        }
        let prefix: &str = "loop";
        if device_name.unicode_len() < 4 {
            return Ok(false);
        }
        let mut at: usize = 0;
        while at < 4
            invariant
                at <= 4,
                device_name@.len() >= 4,
                prefix@ == "loop"@,
                prefix@.len() == 4,
                forall|i: int| 0 <= i < at ==> device_name@[i] == prefix@[i],
            decreases 4 - at,
        {
            if device_name.get_char(at) != prefix.get_char(at) {
                assert(device_name@.subrange(0, 4)[at as int] != prefix@[at as int]);
                return Ok(false);
            }
            at += 1;
        }
        assert(device_name@.subrange(0, 4) =~= prefix@);
        Ok(true)
    }
}

/// The driver of loop devices.
#[derive(Debug)]
pub struct LoopDeviceDriver {}

impl LoopDeviceDriver {
    /// The driver.
    pub fn new() -> (driver: LoopDeviceDriver) {
        LoopDeviceDriver {  }
    }
}

/// A file that holds nothing, to stand behind a loop device until a file is
/// bound to it.
#[derive(Debug)]
pub struct DummyIndexNode {
    id: usize,
}

impl DummyIndexNode {
    /// The number of the file.
    pub closed spec fn id(&self) -> usize {
        self.id
    }

    /// The empty file with the given number.
    pub fn new(id: usize) -> (node: DummyIndexNode)
        ensures
            node.id() == id,
    {
        Self { id }
    }

    /// What the empty file tells of itself: a block device without any
    /// block, whose minor number is the low 32 bits of the number of the
    /// file.
    pub fn metadata(&self) -> (metadata: Result<Metadata, LoopError>)
        ensures
            metadata == Ok::<Metadata, LoopError>(
                (Metadata {
                    dev_id: 0,
                    inode_id: self.id(),
                    size: 0,
                    blk_size: 0,
                    blocks: 0,
                    mode: 0o644,
                    nlinks: 1,
                    uid: 0,
                    gid: 0,
                    raw_dev_major: LOOP_MAJOR,
                    raw_dev_minor: (self.id() as int % 0x1_0000_0000) as u32,
                }),
            ),
    {
        Ok(
            Metadata {
                dev_id: 0,
                inode_id: self.id,
                size: 0,
                blk_size: 0,
                blocks: 0,
                mode: 0o644,
                nlinks: 1,
                uid: 0,
                gid: 0,
                raw_dev_major: LOOP_MAJOR,
                raw_dev_minor: ((self.id as u64) % 0x1_0000_0000u64) as u32,
            },
        )
    }
}

/// Binds a file to the first free loop device, for the system to register.
/// `file_size` is what the file reports as its size, or nothing where it
/// reports none.
///
/// Without a free device, or without a size, this is `NoDevice`.
pub fn create_loop_device(manager: &mut LoopManager, file_size: Option<usize>) -> (device: Result<
    LoopDevice,
    LoopError,
>)
    requires
        old(manager).wf(),
    ensures
        final(manager).wf(),
        device is Ok <==> file_size is Some && old(manager).first_free() is Some,
        device is Err ==> device->Err_0 == LoopError::NoDevice,
        old(manager).first_free() matches Some(id) ==> final(manager).taken() == old(
            manager,
        ).taken().update(id, true),
        old(manager).first_free() is None ==> final(manager).taken() == old(manager).taken(),
        device matches Ok(made) ==> {
            &&& made@ == (LoopDeviceInner {
                file_size: file_size->0,
                minor: 0,
                offset: 0,
                size_limit: 0,
                user_direct_io: false,
                read_only: false,
                visible: true,
            })
            &&& Some(made.devname().id_view() as int) == old(manager).first_free()
            &&& made.devname().name_view() == loop_name(made.devname().id_view() as nat)
        },
{
    match LoopDevice::new(manager, file_size) {
        Some(device) => Ok(device),
        None => Err(LoopError::NoDevice),
    }
}

/// Sets the loop devices up: a manager, and one device for each of its
/// numbers, `loop0` to `loop7`, each on an empty file.
pub fn loop_init() -> (made: (LoopManager, Vec<LoopDevice>))
    ensures
        made.0.wf(),
        forall|i: int| 0 <= i < MAX_DEVICES ==> made.0.taken()[i],
        made.1@.len() == MAX_DEVICES,
        forall|i: int|
            0 <= i < MAX_DEVICES ==> (#[trigger] made.1@[i]).devname().id_view() == i
                && made.1@[i].devname().name_view() == loop_name(i as nat)
                && made.1@[i]@.file_size == 0 && !made.1@[i]@.read_only,
{
    let mut manager: LoopManager = LoopManager::new();
    let mut devices: Vec<LoopDevice> = Vec::new();
    let mut i: usize = 0;
    while i < MAX_DEVICES
        invariant
            i <= MAX_DEVICES,
            manager.wf(),
            devices@.len() == i,
            forall|j: int| 0 <= j < i ==> manager.taken()[j],
            forall|j: int| i <= j < MAX_DEVICES ==> !manager.taken()[j],
            forall|j: int|
                0 <= j < i ==> (#[trigger] devices@[j]).devname().id_view() == j
                    && devices@[j].devname().name_view() == loop_name(j as nat)
                    && devices@[j]@.file_size == 0 && !devices@[j]@.read_only,
        decreases MAX_DEVICES - i,
    {
        let dummy_inode: DummyIndexNode = DummyIndexNode::new(i);
        let file_size: Option<usize> = match dummy_inode.metadata() {
            Ok(metadata) => Some(metadata.size as usize),
            Err(_) => None,
        };
        let ghost before = manager;
        proof {
            assert(!before.taken()[i as int]);
            let chosen = before.first_free()->0;
            if chosen < i {
                assert(before.taken()[chosen]);
            }
        }
        match create_loop_device(&mut manager, file_size) {
            Ok(device) => {
                devices.push(device);
            },
            Err(_) => {
                proof {
                    assert(false);
                }
            },
        }
        i += 1;
    }
    (manager, devices)
}

} // verus!
