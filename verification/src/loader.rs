//! Loading a user program, one step at a time.
//!
//! Mapping memory and copying bytes into it are the caller's work; what is
//! to be mapped or copied next, and when loading has failed, is decided
//! here. The caller asks for the next action, performs it, and reports
//! whether it succeeded when it asks again.
//!
//! The segments are taken in the order of the file. Each is first held
//! against the window for user code, then mapped, then filled with its
//! bytes. After the last segment the user stack is mapped, and then the
//! thread can be created. The first failure ends the loading: what was
//! mapped before stays mapped, and nothing is tried again.

use vstd::prelude::*;
use crate::elf::{
    in_user_window, read_image, segment_in_window, spec_read_image, ElfError, ElfImage,
    ElfImageView,
};
use crate::memory::{spec_page_range, FLAG_PRESENT, FLAG_USER_ACCESSIBLE, FLAG_WRITABLE};
use crate::process::{ThreadError, USER_STACK_SIZE, USER_STACK_START};

verus! {

/// The flags of every page of a user program: present, writable and
/// accessible from ring 3.
pub const USER_PAGE_FLAGS: u64 = FLAG_PRESENT | FLAG_WRITABLE | FLAG_USER_ACCESSIBLE;

/// The flags of a user page have the lowest three bits set and no other.
pub proof fn lemma_user_page_flags()
    ensures
        USER_PAGE_FLAGS == 7,
{
    assert(1u64 | 2u64 | 4u64 == 7u64) by (bit_vector);
}

/// Every region that the loader asks to be mapped can be covered with
/// pages: a segment within the window for user code, and the user stack.
pub proof fn lemma_regions_can_be_mapped(address: u64, size: u64)
    requires
        in_user_window(address, size),
    ensures
        spec_page_range(address, size).is_some(),
        spec_page_range(USER_STACK_START, USER_STACK_SIZE as u64) == Some((USER_STACK_START, 5nat)),
{
}

/// How far the loading has come.
#[derive(Debug, Clone, Copy, PartialEq, Eq, Structural)]
pub enum LoadStage {
    /// The next segment is to be looked at.
    Examine,
    /// The caller is mapping the memory of the segment.
    AwaitSegment,
    /// The caller is copying the bytes of the segment.
    AwaitCopy,
    /// The caller is mapping the user stack.
    AwaitStack,
    /// Everything is in place for the thread.
    Ready,
    /// Loading has failed.
    Aborted(ThreadError),
}

/// What the caller has to do next.
#[derive(Debug, Clone, Copy, PartialEq, Eq, Structural)]
pub enum LoadAction {
    /// Map `size` bytes from `start` to fresh frames, with `flags`.
    MapRegion { start: u64, size: u64, flags: u64 },
    /// Copy the bytes that the file holds for the segment `segment` to
    /// `address`: all of them, also where the file holds more bytes than
    /// the segment takes in memory.
    CopyData { segment: usize, address: u64 },
    /// Create the thread: the program starts at `entry`.
    Spawn { entry: u64 },
    /// Give up with this error.
    Failed(ThreadError),
}

/// The state of a loader as a mathematical value.
pub struct LoaderView {
    pub image: ElfImageView,
    /// Index of the segment that is being loaded.
    pub index: nat,
    pub stage: LoadStage,
}

impl LoaderView {
    /// The state before anything was done.
    pub open spec fn initial(image: ElfImageView) -> LoaderView {
        LoaderView { image, index: 0, stage: LoadStage::Examine }
    }

    /// The same state at another stage.
    pub open spec fn at(self, stage: LoadStage) -> LoaderView {
        LoaderView { image: self.image, index: self.index, stage }
    }

    /// While a segment is being mapped or filled, it is a segment of the
    /// program.
    pub open spec fn valid(self) -> bool {
        self.stage == LoadStage::AwaitSegment || self.stage == LoadStage::AwaitCopy
            ==> self.index < self.image.segments.len()
    }

    /// Looks at the segment `index`. A segment outside the window ends the
    /// loading; one inside it is to be mapped. When no segment is left the
    /// user stack is to be mapped.
    pub open spec fn examine(self) -> (LoaderView, LoadAction) {
        if self.index < self.image.segments.len() {
            let segment = self.image.segments[self.index as int];
            if in_user_window(segment.address, segment.size) {
                (
                    self.at(LoadStage::AwaitSegment),
                    LoadAction::MapRegion {
                        start: segment.address,
                        size: segment.size,
                        flags: USER_PAGE_FLAGS,
                    },
                )
            } else {
                (
                    self.at(LoadStage::Aborted(ThreadError::SegmentOutOfRange)),
                    LoadAction::Failed(ThreadError::SegmentOutOfRange),
                )
            }
        } else {
            (
                self.at(LoadStage::AwaitStack),
                LoadAction::MapRegion {
                    start: USER_STACK_START,
                    size: USER_STACK_SIZE as u64,
                    flags: USER_PAGE_FLAGS,
                },
            )
        }
    }

    /// Goes on to the segment after `index`.
    pub open spec fn next_segment(self) -> (LoaderView, LoadAction) {
        LoaderView { image: self.image, index: self.index + 1, stage: LoadStage::Examine }.examine()
    }

    /// Ends the loading: memory could not be mapped.
    pub open spec fn out_of_memory(self) -> (LoaderView, LoadAction) {
        (
            self.at(LoadStage::Aborted(ThreadError::AllocationFailed)),
            LoadAction::Failed(ThreadError::AllocationFailed),
        )
    }

    /// The next state and the next action, where `last_ok` says whether
    /// the action before succeeded. (Before the first action, and after the
    /// loading has ended, `last_ok` does not count.)
    pub open spec fn step(self, last_ok: bool) -> (LoaderView, LoadAction) {
        match self.stage {
            LoadStage::Examine => self.examine(),
            LoadStage::AwaitSegment => {
                let segment = self.image.segments[self.index as int];
                if !last_ok {
                    self.out_of_memory()
                } else if segment.data.is_some() {
                    (
                        self.at(LoadStage::AwaitCopy),
                        LoadAction::CopyData { segment: self.index as usize, address: segment.address },
                    )
                } else {
                    self.next_segment()
                }
            },
            LoadStage::AwaitCopy => self.next_segment(),
            LoadStage::AwaitStack => {
                if last_ok {
                    (self.at(LoadStage::Ready), LoadAction::Spawn { entry: self.image.entry })
                } else {
                    self.out_of_memory()
                }
            },
            LoadStage::Ready => (self, LoadAction::Spawn { entry: self.image.entry }),
            LoadStage::Aborted(error) => (self, LoadAction::Failed(error)),
        }
    }

    /// A step leads from a valid state to a valid state.
    pub proof fn lemma_step_valid(self, last_ok: bool)
        requires
            self.valid(),
        ensures
            self.step(last_ok).0.valid(),
            self.step(last_ok).0.image == self.image,
    {
    }

    /// A program whose first segment lies outside the window is refused at
    /// the first step, before any memory is asked for.
    pub proof fn lemma_first_segment_outside(image: ElfImageView, last_ok: bool)
        requires
            image.segments.len() > 0,
            !in_user_window(image.segments[0].address, image.segments[0].size),
        ensures
            LoaderView::initial(image).step(last_ok).1 == LoadAction::Failed(
                ThreadError::SegmentOutOfRange,
            ),
            LoaderView::initial(image).step(last_ok).0.stage == LoadStage::Aborted(
                ThreadError::SegmentOutOfRange,
            ),
    {
    }

    /// Memory is asked for a segment only if the segment lies within the
    /// window for user code.
    pub proof fn lemma_only_window_is_mapped(self, last_ok: bool)
        requires
            self.valid(),
        ensures
            self.step(last_ok).0.stage == LoadStage::AwaitSegment ==> {
                let after = self.step(last_ok).0;
                let segment = after.image.segments[after.index as int];
                &&& after.index < after.image.segments.len()
                &&& in_user_window(segment.address, segment.size)
                &&& self.step(last_ok).1 == LoadAction::MapRegion {
                    start: segment.address,
                    size: segment.size,
                    flags: USER_PAGE_FLAGS,
                }
            },
    {
    }

    /// Once the loading has failed it stays failed, with the same error.
    pub proof fn lemma_failure_is_final(self, error: ThreadError, last_ok: bool)
        requires
            self.stage == LoadStage::Aborted(error),
        ensures
            self.step(last_ok) == (self, LoadAction::Failed(error)),
    {
    }
}

/// A user program that is being loaded.
pub struct UserThreadLoader {
    image: ElfImage,
    index: usize,
    stage: LoadStage,
}

impl View for UserThreadLoader {
    type V = LoaderView;

    closed spec fn view(&self) -> LoaderView {
        LoaderView { image: self.image@, index: self.index as nat, stage: self.stage }
    }
}

impl UserThreadLoader {
    #[verifier::type_invariant]
    spec fn well_formed(self) -> bool {
        self@.valid()
    }

    /// A loader for a parsed program, before anything was done.
    pub fn new(image: ElfImage) -> (loader: Self)
        ensures
            loader@ == LoaderView::initial(image@),
    {
        UserThreadLoader { image, index: 0, stage: LoadStage::Examine }
    }

    /// The entry point of the program.
    pub fn entry(&self) -> (entry: u64)
        ensures
            entry == self@.image.entry,
    {
        self.image.entry
    }

    /// Number of segments of the program.
    pub fn segment_count(&self) -> (count: usize)
        ensures
            count == self@.image.segments.len(),
    {
        self.image.segments.len()
    }

    /// The bytes that the file holds for the segment `index`, if there is
    /// such a segment and its bytes could be read.
    pub fn segment_data(&self, index: usize) -> (data: Option<&Vec<u8>>)
        ensures
            match data {
                Some(bytes) => index < self@.image.segments.len() && self@.image.segments[index as int].data
                    == Some(bytes@),
                None => index >= self@.image.segments.len()
                    || self@.image.segments[index as int].data.is_none(),
            },
    {
        if index < self.image.segments.len() {
            assert(self@.image.segments[index as int] == self.image.segments@[index as int]@);
            match &self.image.segments[index].data {
                Some(bytes) => Some(bytes),
                None => None,
            }
        } else {
            None
        }
    }

    fn examine(&mut self) -> (action: LoadAction)
        requires
            old(self)@.stage == LoadStage::Examine,
        ensures
            (final(self)@, action) == old(self)@.examine(),
    {
        if self.index < self.image.segments.len() {
            let segment = &self.image.segments[self.index];
            assert(self@.image.segments[self.index as int] == segment@);
            if segment_in_window(segment.address, segment.size) {
                let action = LoadAction::MapRegion {
                    start: segment.address,
                    size: segment.size,
                    flags: USER_PAGE_FLAGS,
                };
                self.stage = LoadStage::AwaitSegment;
                action
            } else {
                self.stage = LoadStage::Aborted(ThreadError::SegmentOutOfRange);
                LoadAction::Failed(ThreadError::SegmentOutOfRange)
            }
        } else {
            self.stage = LoadStage::AwaitStack;
            LoadAction::MapRegion {
                start: USER_STACK_START,
                size: USER_STACK_SIZE as u64,
                flags: USER_PAGE_FLAGS,
            }
        }
    }

    /// Says what is to be done next. `last_ok` tells whether the action
    /// that was handed out before has succeeded.
    pub fn advance(&mut self, last_ok: bool) -> (action: LoadAction)
        ensures
            (final(self)@, action) == old(self)@.step(last_ok),
    {
        proof {
            use_type_invariant(&*self);
        }
        match self.stage {
            LoadStage::Examine => self.examine(),
            LoadStage::AwaitSegment => {
                let segment = &self.image.segments[self.index];
                assert(self@.image.segments[self.index as int] == segment@);
                if !last_ok {
                    self.stage = LoadStage::Aborted(ThreadError::AllocationFailed);
                    LoadAction::Failed(ThreadError::AllocationFailed)
                } else if segment.data.is_some() {
                    let action = LoadAction::CopyData {
                        segment: self.index,
                        address: segment.address,
                    };
                    self.stage = LoadStage::AwaitCopy;
                    action
                } else {
                    let count = self.image.segments.len();
                    assert(self.index < count);
                    self.stage = LoadStage::Examine;
                    self.index = self.index + 1;
                    self.examine()
                }
            },
            LoadStage::AwaitCopy => {
                let count = self.image.segments.len();
                assert(self.index < count);
                self.stage = LoadStage::Examine;
                self.index = self.index + 1;
                self.examine()
            },
            LoadStage::AwaitStack => {
                if last_ok {
                    self.stage = LoadStage::Ready;
                    LoadAction::Spawn { entry: self.image.entry }
                } else {
                    self.stage = LoadStage::Aborted(ThreadError::AllocationFailed);
                    LoadAction::Failed(ThreadError::AllocationFailed)
                }
            },
            LoadStage::Ready => LoadAction::Spawn { entry: self.image.entry },
            LoadStage::Aborted(error) => LoadAction::Failed(error),
        }
    }
}

/// What the first part of the creation of a user thread gives, as a
/// function of the bytes of the program: a file without the magic number
/// is no ELF file, one that the parser refuses is malformed, and any other
/// is ready to be loaded.
pub open spec fn spec_new_user_thread(bytes: Seq<u8>) -> Result<LoaderView, ThreadError> {
    match spec_read_image(bytes) {
        Ok(image) => Ok(LoaderView::initial(image)),
        Err(ElfError::NotElf) => Err(ThreadError::NotElf),
        Err(ElfError::Malformed) => Err(ThreadError::Malformed),
    }
}

/// Begins the creation of a user thread from the bytes of its program:
/// checks the magic number, parses the file, and returns the loader that
/// leads through the mapping of the program. The thread itself is created
/// when the loader has handed out [`LoadAction::Spawn`].
pub fn new_user_thread(bin: &[u8]) -> (loader: Result<UserThreadLoader, ThreadError>)
    ensures
        loader is Ok == spec_new_user_thread(bin@) is Ok,
        loader matches Ok(started) ==> Ok::<LoaderView, ThreadError>(started@)
            == spec_new_user_thread(bin@),
        loader matches Err(error) ==> Err::<LoaderView, ThreadError>(error)
            == spec_new_user_thread(bin@),
{
    match read_image(bin) {
        Ok(image) => Ok(UserThreadLoader::new(image)),
        Err(ElfError::NotElf) => Err(ThreadError::NotElf),
        Err(ElfError::Malformed) => Err(ThreadError::Malformed),
    }
}

} // verus!
