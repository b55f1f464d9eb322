//! Commands that copy damage between two imported images.

use crate::geometry::Rectangle;
use vstd::prelude::*;

verus! {

/// Who owns an image.
#[derive(Clone, Copy, Debug, PartialEq, Eq, Structural)]
pub enum Owner {
    /// The API on the other side of the dma-buf.
    Foreign,
    /// The engine's queue family.
    Engine,
}

/// Layout of an image in memory.
#[derive(Clone, Copy, Debug, PartialEq, Eq, Structural)]
pub enum Layout {
    General,
    TransferSrcOptimal,
    TransferDstOptimal,
}

/// Memory access that a barrier orders.
#[derive(Clone, Copy, Debug, PartialEq, Eq, Structural)]
pub enum Access {
    Empty,
    TransferRead,
    TransferWrite,
}

/// Point of the pipeline that a barrier orders.
#[derive(Clone, Copy, Debug, PartialEq, Eq, Structural)]
pub enum Pipeline {
    TopOfPipe,
    Transfer,
    BottomOfPipe,
}

/// Transition of one image.
#[derive(Clone, Copy, Debug, PartialEq, Eq, Structural)]
pub struct ImageBarrier {
    pub src_access: Access,
    pub dst_access: Access,
    pub old_layout: Layout,
    pub new_layout: Layout,
    pub src_owner: Owner,
    pub dst_owner: Owner,
}

/// One command of a copy.
#[derive(Clone, Copy, Debug, PartialEq, Eq, Structural)]
pub enum Command {
    /// Begin a one-time command buffer.
    Begin,
    /// Transition both images.
    Images {
        src_stage: Pipeline,
        dst_stage: Pipeline,
        source: ImageBarrier,
        destination: ImageBarrier,
    },
    /// Order transfer writes before later transfer writes.
    SerializeWrites,
    /// Copy a rectangle to the same place of the destination.
    Copy { x: i32, y: i32, width: u32, height: u32 },
    /// End the command buffer.
    End,
}

/// Takes an image over from the foreign API. Contents are never discarded.
pub open spec fn acquire(access: Access, layout: Layout) -> ImageBarrier {
    ImageBarrier {
        src_access: Access::Empty,
        dst_access: access,
        old_layout: Layout::General,
        new_layout: layout,
        src_owner: Owner::Foreign,
        dst_owner: Owner::Engine,
    }
}

/// Gives an image back to the foreign API.
pub open spec fn release(access: Access, layout: Layout) -> ImageBarrier {
    ImageBarrier {
        src_access: access,
        dst_access: Access::Empty,
        old_layout: layout,
        new_layout: Layout::General,
        src_owner: Owner::Engine,
        dst_owner: Owner::Foreign,
    }
}

/// Takes both images over before the first copy.
pub open spec fn acquire_images() -> Command {
    Command::Images {
        src_stage: Pipeline::TopOfPipe,
        dst_stage: Pipeline::Transfer,
        source: acquire(Access::TransferRead, Layout::TransferSrcOptimal),
        destination: acquire(Access::TransferWrite, Layout::TransferDstOptimal),
    }
}

/// Gives both images back after the last copy.
pub open spec fn release_images() -> Command {
    Command::Images {
        src_stage: Pipeline::Transfer,
        dst_stage: Pipeline::BottomOfPipe,
        source: release(Access::TransferRead, Layout::TransferSrcOptimal),
        destination: release(Access::TransferWrite, Layout::TransferDstOptimal),
    }
}

/// The copy of one region.
pub open spec fn copy_of(rect: Rectangle) -> Command {
    Command::Copy {
        x: rect.loc.x,
        y: rect.loc.y,
        width: rect.size.w as u32,
        height: rect.size.h as u32,
    }
}

/// Copies of the first `n` regions, with their writes serialized.
pub open spec fn copies(regions: Seq<Rectangle>, n: int) -> Seq<Command>
    decreases n,
{
    if n <= 0 {
        seq![]
    } else if n == 1 {
        seq![copy_of(regions[0])]
    } else {
        copies(regions, n - 1).push(Command::SerializeWrites).push(copy_of(regions[n - 1]))
    }
}

/// All commands of a copy.
pub open spec fn commands(regions: Seq<Rectangle>) -> Seq<Command> {
    seq![Command::Begin, acquire_images()] + copies(regions, regions.len() as int)
        + seq![release_images(), Command::End]
}

/// Lists the commands that copy `regions`. Separate copies permit overlapping damage rectangles
/// without violating the non-overlap rule for the regions of a single copy.
pub fn record(regions: &Vec<Rectangle>) -> (list: Vec<Command>)
    ensures
        list@ == commands(regions@),
        records(list@, regions@),
{
    let mut list: Vec<Command> = Vec::new();
    list.push(Command::Begin);
    list.push(
        Command::Images {
            src_stage: Pipeline::TopOfPipe,
            dst_stage: Pipeline::Transfer,
            source: ImageBarrier {
                src_access: Access::Empty,
                dst_access: Access::TransferRead,
                old_layout: Layout::General,
                new_layout: Layout::TransferSrcOptimal,
                src_owner: Owner::Foreign,
                dst_owner: Owner::Engine,
            },
            destination: ImageBarrier {
                src_access: Access::Empty,
                dst_access: Access::TransferWrite,
                old_layout: Layout::General,
                new_layout: Layout::TransferDstOptimal,
                src_owner: Owner::Foreign,
                dst_owner: Owner::Engine,
            },
        },
    );
    let ghost head = list@;
    assert(head =~= seq![Command::Begin, acquire_images()]);
    let mut i: usize = 0;
    assert(list@ =~= head + copies(regions@, 0));
    while i < regions.len()
        invariant
            i <= regions@.len(),
            list@ == head + copies(regions@, i as int),
        decreases regions@.len() - i,
    {
        if i != 0 {
            list.push(Command::SerializeWrites);
        }
        let rect: Rectangle = regions[i];
        list.push(
            Command::Copy {
                x: rect.loc.x,
                y: rect.loc.y,
                width: rect.size.w as u32,
                height: rect.size.h as u32,
            },
        );
        i += 1;
        assert(list@ =~= head + copies(regions@, i as int));
    }
    list.push(
        Command::Images {
            src_stage: Pipeline::Transfer,
            dst_stage: Pipeline::BottomOfPipe,
            source: ImageBarrier {
                src_access: Access::TransferRead,
                dst_access: Access::Empty,
                old_layout: Layout::TransferSrcOptimal,
                new_layout: Layout::General,
                src_owner: Owner::Engine,
                dst_owner: Owner::Foreign,
            },
            destination: ImageBarrier {
                src_access: Access::TransferWrite,
                dst_access: Access::Empty,
                old_layout: Layout::TransferDstOptimal,
                new_layout: Layout::General,
                src_owner: Owner::Engine,
                dst_owner: Owner::Foreign,
            },
        },
    );
    list.push(Command::End);
    assert(list@ =~= commands(regions@));
    proof {
        every_region_is_recorded(regions@);
    }
    list
}

/// Copies alternate with barriers: region `i` is copied at place `2 * i`, in order, and its writes
/// are ordered before those of the next region.
pub proof fn copies_are_serialized(regions: Seq<Rectangle>, n: int)
    requires
        0 < n <= regions.len(),
    ensures
        copies(regions, n).len() == 2 * n - 1,
        forall|i: int| 0 <= i < n ==> copies(regions, n)[2 * i] == copy_of(#[trigger] regions[i]),
        forall|k: int|
            0 <= k < 2 * n - 1 && k % 2 == 1 ==> #[trigger] copies(regions, n)[k]
                == Command::SerializeWrites,
    decreases n,
{
    if n > 1 {
        copies_are_serialized(regions, n - 1);
        let before = copies(regions, n - 1);
        assert forall|k: int| 0 <= k < 2 * n - 1 && k % 2 == 1 implies #[trigger] copies(
            regions,
            n,
        )[k] == Command::SerializeWrites by {
            if k < before.len() {
                assert(copies(regions, n)[k] == before[k]);
            }
        }
    }
}

/// Releasing undoes acquiring: each image returns to the layout and owner it came from, and no
/// access is left unordered.
pub proof fn release_undoes_acquire(access: Access, layout: Layout)
    ensures
        release(access, layout).new_layout == acquire(access, layout).old_layout,
        release(access, layout).old_layout == acquire(access, layout).new_layout,
        release(access, layout).dst_owner == acquire(access, layout).src_owner,
        release(access, layout).src_owner == acquire(access, layout).dst_owner,
        release(access, layout).src_access == acquire(access, layout).dst_access,
{
}

/// Whether a list of commands copies each of the regions, in order, between taking both images over
/// and giving them back: a copy has the place and the extent of its region, the writes of one copy
/// are ordered before the next, and nothing else is recorded.
pub open spec fn records(list: Seq<Command>, regions: Seq<Rectangle>) -> bool {
    let last = list.len() - 1;
    &&& list.len() == if regions.len() == 0 {
        4
    } else {
        2 * regions.len() + 3
    }
    &&& list[0] == Command::Begin
    &&& list[last] == Command::End
    &&& list[1] matches Command::Images { src_stage, dst_stage, source, destination }
    &&& src_stage == Pipeline::TopOfPipe
    &&& dst_stage == Pipeline::Transfer
    &&& source.src_access == Access::Empty
    &&& source.dst_access == Access::TransferRead
    &&& source.old_layout == Layout::General
    &&& source.new_layout == Layout::TransferSrcOptimal
    &&& source.src_owner == Owner::Foreign
    &&& source.dst_owner == Owner::Engine
    &&& destination.src_access == Access::Empty
    &&& destination.dst_access == Access::TransferWrite
    &&& destination.old_layout == Layout::General
    &&& destination.new_layout == Layout::TransferDstOptimal
    &&& destination.src_owner == Owner::Foreign
    &&& destination.dst_owner == Owner::Engine
    &&& gives_back(list[last - 1], list[1])
    &&& forall|i: int|
        0 <= i < regions.len() ==> copies_region(list[2 + 2 * i], #[trigger] regions[i])
    &&& forall|i: int|
        0 < i < regions.len() ==> {
            let _ = #[trigger] regions[i];
            list[1 + 2 * i] == Command::SerializeWrites
        }
}

/// Whether a command copies exactly the pixels of a rectangle to the same place.
pub open spec fn copies_region(command: Command, rect: Rectangle) -> bool {
    &&& command matches Command::Copy { x, y, width, height }
    &&& x == rect.loc.x
    &&& y == rect.loc.y
    &&& rect.size.w >= 0 ==> width == rect.size.w
    &&& rect.size.h >= 0 ==> height == rect.size.h
}

/// Whether a command gives both images back to where another one took them from, after the access
/// that the other one prepared.
pub open spec fn gives_back(release: Command, acquire: Command) -> bool {
    match (release, acquire) {
        (
            Command::Images { src_stage, dst_stage, source: r, destination: s },
            Command::Images { dst_stage: middle, source: a, destination: b, .. },
        ) => {
            &&& src_stage == middle
            &&& dst_stage == Pipeline::BottomOfPipe
            &&& r.src_access == a.dst_access && r.dst_access == Access::Empty
            &&& r.old_layout == a.new_layout && r.new_layout == a.old_layout
            &&& r.src_owner == a.dst_owner && r.dst_owner == a.src_owner
            &&& s.src_access == b.dst_access && s.dst_access == Access::Empty
            &&& s.old_layout == b.new_layout && s.new_layout == b.old_layout
            &&& s.src_owner == b.dst_owner && s.dst_owner == b.src_owner
        },
        _ => false,
    }
}

/// The commands of a copy record each of its regions.
pub proof fn every_region_is_recorded(regions: Seq<Rectangle>)
    ensures
        records(commands(regions), regions),
{
    let list = commands(regions);
    let n = regions.len() as int;
    if n > 0 {
        copies_are_serialized(regions, n);
        assert forall|i: int| 0 <= i < n implies copies_region(
            list[2 + 2 * i],
            #[trigger] regions[i],
        ) by {
            assert(list[2 + 2 * i] == copies(regions, n)[2 * i]);
        }
        assert forall|i: int| 0 < i < n implies {
            let _ = #[trigger] regions[i];
            list[1 + 2 * i] == Command::SerializeWrites
        } by {
            assert((2 * i - 1) % 2 == 1);
            assert(list[1 + 2 * i] == copies(regions, n)[2 * i - 1]);
        }
    }
}

/// Whether a command copies the pixel `(x, y)`.
pub open spec fn copies_pixel(command: Command, x: int, y: int) -> bool {
    command matches Command::Copy { x: left, y: top, width, height } && left <= x < left + width
        && top <= y < top + height
}

/// A pixel is copied if and only if it is damaged: none of the damage is left out, and nothing
/// beside it is overwritten.
pub proof fn exactly_the_damage_is_copied(regions: Seq<Rectangle>, x: int, y: int)
    requires
        forall|i: int|
            0 <= i < regions.len() ==> (#[trigger] regions[i]).size.w > 0 && regions[i].size.h > 0,
    ensures
        (exists|k: int| 0 <= k < commands(regions).len() && copies_pixel(
            #[trigger] commands(regions)[k],
            x,
            y,
        )) <==> (exists|i: int|
            0 <= i < regions.len() && (#[trigger] regions[i]).loc.x <= x < regions[i].loc.x
                + regions[i].size.w && regions[i].loc.y <= y < regions[i].loc.y
                + regions[i].size.h),
{
    let list = commands(regions);
    let n = regions.len() as int;
    every_region_is_recorded(regions);
    if exists|i: int|
        0 <= i < regions.len() && (#[trigger] regions[i]).loc.x <= x < regions[i].loc.x
            + regions[i].size.w && regions[i].loc.y <= y < regions[i].loc.y + regions[i].size.h {
        let i = choose|i: int|
            0 <= i < regions.len() && (#[trigger] regions[i]).loc.x <= x < regions[i].loc.x
                + regions[i].size.w && regions[i].loc.y <= y < regions[i].loc.y
                + regions[i].size.h;
        assert(copies_region(list[2 + 2 * i], regions[i]));
        assert(copies_pixel(list[2 + 2 * i], x, y));
    }
    if exists|k: int| 0 <= k < list.len() && copies_pixel(#[trigger] list[k], x, y) {
        let k = choose|k: int| 0 <= k < list.len() && copies_pixel(#[trigger] list[k], x, y);
        assert(2 <= k < list.len() - 2);
        if k % 2 == 1 {
            let _ = regions[(k - 1) / 2];
            assert(k == 1 + 2 * ((k - 1) / 2));
            assert(list[1 + 2 * ((k - 1) / 2)] == Command::SerializeWrites);
            assert(false);
        }
        let i = (k - 2) / 2;
        assert(k == 2 + 2 * i);
        assert(copies_region(list[2 + 2 * i], regions[i]));
    }
}

} // verus!
