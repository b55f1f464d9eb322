//! The transfer engine: its caches and its pool of driver objects.
//!
//! The caller owns both allocations and their reuse fences. Imported images are cached by buffer
//! identity and role, least recently used first; sets of driver objects are either idle or belong
//! to a pending submission.

use crate::device::{sync_fd_support, SyncFdSupport, SEMAPHORE_EXPORTABLE, SEMAPHORE_IMPORTABLE};
use crate::error::{ErrorView, VkBridgeError};
use crate::modifiers::contains_bits;
use crate::negotiation::{question_of, strictly_increasing, Negotiation, Question};
use crate::outside::share;
use crate::resources::Resources;
use std::collections::VecDeque;
use std::sync::Arc;
use vstd::prelude::*;

verus! {

/// Most imported images that are kept.
pub const MAX_IMPORTS: usize = 8;

/// Most submissions that are pending at a time.
pub const MAX_PENDING: usize = 8;

/// Most modifier enumerations that are kept.
pub const MAX_MODIFIER_QUERIES: usize = 8;

/// Whether no further submission may become pending.
pub fn pool_busy(pending: usize) -> (busy: bool)
    ensures
        busy == (pending >= MAX_PENDING),
{
    pending >= MAX_PENDING
}

/// An image imported from a dma-buf.
#[derive(Debug)]
pub struct Imported<H> {
    /// Identity of the buffer, not an fd number. Retaining the handle prevents allocation reuse.
    pub buffer: u64,
    /// Imported to be copied from, rather than to.
    pub source: bool,
    /// The driver's objects.
    pub handle: H,
}

/// A cached enumeration of source modifiers.
#[derive(Debug)]
pub struct SourceModifiers {
    pub fourcc: u32,
    pub width: u32,
    pub height: u32,
    pub modifiers: Vec<u64>,
}

/// What a cached enumeration holds.
#[verifier::ext_equal]
pub struct QueryView {
    pub fourcc: u32,
    pub width: u32,
    pub height: u32,
    pub modifiers: Seq<u64>,
}

impl View for SourceModifiers {
    type V = QueryView;

    open spec fn view(&self) -> QueryView {
        QueryView {
            fourcc: self.fourcc,
            width: self.width,
            height: self.height,
            modifiers: self.modifiers@,
        }
    }
}

/// Transfer-only engine; allocations and presentation state belong to the caller. `H` is what the
/// driver keeps of an imported image, `P` a pending submission's shared completion.
pub struct VkBridge<H, P> {
    sync_fd: SyncFdSupport,
    device_lost: bool,
    imports: VecDeque<Arc<Imported<H>>>,
    pending: Vec<P>,
    idle: Vec<Resources>,
    source_modifiers: VecDeque<SourceModifiers>,
}

/// What an engine holds.
#[verifier::ext_equal]
pub struct BridgeView<H, P> {
    pub sync_fd: SyncFdSupport,
    pub device_lost: bool,
    /// Imported images, least recently used first.
    pub imports: Seq<Arc<Imported<H>>>,
    /// Submissions that have not been reaped.
    pub pending: Seq<P>,
    /// Sets that can be checked out; the last one is taken first.
    pub idle: Seq<Resources>,
    /// Cached enumerations, least recently used first.
    pub queries: Seq<QueryView>,
}

impl<H, P> View for VkBridge<H, P> {
    type V = BridgeView<H, P>;

    closed spec fn view(&self) -> BridgeView<H, P> {
        BridgeView {
            sync_fd: self.sync_fd,
            device_lost: self.device_lost,
            imports: self.imports@,
            pending: self.pending@,
            idle: self.idle@,
            queries: self.source_modifiers@.map_values(|entry: SourceModifiers| entry@),
        }
    }
}

/// Whether a cached enumeration answers a query.
pub open spec fn answers(entry: QueryView, fourcc: u32, width: u32, height: u32) -> bool {
    entry.fourcc == fourcc && entry.width == width && entry.height == height
}

impl<H, P> BridgeView<H, P> {
    /// Caches are bounded and hold every key once; cached enumerations are sorted.
    pub open spec fn caches_ok(self) -> bool {
        &&& self.imports.len() <= MAX_IMPORTS
        &&& forall|i: int, j: int|
            0 <= i < j < self.imports.len() ==> !((#[trigger] self.imports[i]).buffer == (
            #[trigger] self.imports[j]).buffer && self.imports[i].source
                == self.imports[j].source)
        &&& self.queries.len() <= MAX_MODIFIER_QUERIES
        &&& forall|i: int, j: int|
            0 <= i < j < self.queries.len() ==> !answers(
                #[trigger] self.queries[i],
                (#[trigger] self.queries[j]).fourcc,
                self.queries[j].width,
                self.queries[j].height,
            )
        &&& forall|i: int|
            0 <= i < self.queries.len() ==> strictly_increasing(
                (#[trigger] self.queries[i]).modifiers,
            )
    }

    /// Number of sets of driver objects that are idle or pending.
    pub open spec fn slots(self) -> nat {
        self.idle.len() + self.pending.len()
    }

    /// Caches are in order and at most `MAX_PENDING` sets exist.
    pub open spec fn wf(self) -> bool {
        self.caches_ok() && self.slots() <= MAX_PENDING
    }
}

/// Index, from `from` on, of the import of a buffer in a role; the number of imports if none.
pub open spec fn import_position<H>(
    imports: Seq<Arc<Imported<H>>>,
    buffer: u64,
    source: bool,
    from: int,
) -> int
    decreases imports.len() - from,
{
    if from >= imports.len() {
        imports.len() as int
    } else if imports[from].buffer == buffer && imports[from].source == source {
        from
    } else {
        import_position(imports, buffer, source, from + 1)
    }
}

/// Index, from `from` on, of the enumeration that answers a query; the number of them if none.
pub open spec fn query_position(
    queries: Seq<QueryView>,
    fourcc: u32,
    width: u32,
    height: u32,
    from: int,
) -> int
    decreases queries.len() - from,
{
    if from >= queries.len() {
        queries.len() as int
    } else if answers(queries[from], fourcc, width, height) {
        from
    } else {
        query_position(queries, fourcc, width, height, from + 1)
    }
}

/// The list with element `i` moved to the end: it is now the most recently used.
pub open spec fn touched<T>(list: Seq<T>, i: int) -> Seq<T> {
    list.remove(i).push(list[i])
}

/// The list with a new element at the end; a full list loses its least recently used element.
pub open spec fn admitted<T>(list: Seq<T>, capacity: nat, element: T) -> Seq<T> {
    if list.len() == capacity {
        list.drop_first().push(element)
    } else {
        list.push(element)
    }
}

/// Outcome of looking for source modifiers.
#[derive(Debug)]
pub enum ModifierQuery {
    /// Answered from the cache.
    Known(Vec<u64>),
    /// The driver has to be asked.
    Negotiate(Negotiation),
}

impl<H, P> VkBridge<H, P> {
    /// An engine on a device with the given SYNC_FD semaphore feature bits; `None` if the device
    /// lacks the extension.
    pub fn new(semaphore_features: Option<u32>) -> (bridge: Self)
        ensures
            bridge@.wf(),
            bridge@ == (BridgeView::<H, P> {
                sync_fd: SyncFdSupport {
                    import: semaphore_features matches Some(bits) && contains_bits(
                        bits,
                        SEMAPHORE_IMPORTABLE,
                    ),
                    export: semaphore_features matches Some(bits) && contains_bits(
                        bits,
                        SEMAPHORE_EXPORTABLE,
                    ),
                },
                device_lost: false,
                imports: seq![],
                pending: seq![],
                idle: seq![],
                queries: seq![],
            }),
    {
        let bridge = VkBridge {
            sync_fd: sync_fd_support(semaphore_features),
            device_lost: false,
            imports: VecDeque::new(),
            pending: Vec::new(),
            idle: Vec::new(),
            source_modifiers: VecDeque::new(),
        };
        assert(bridge@.queries =~= seq![]);
        bridge
    }

    /// Whether the device is known to be lost.
    pub fn device_lost(&self) -> (is_lost: bool)
        ensures
            is_lost == self@.device_lost,
    {
        self.device_lost
    }

    /// Notes a device loss that a consumer discovered.
    pub fn mark_device_lost(&mut self)
        ensures
            final(self)@ == (BridgeView { device_lost: true, ..old(self)@ }),
    {
        self.device_lost = true;
    }

    /// Native fence exchange of the device.
    pub fn sync_fd(&self) -> (support: SyncFdSupport)
        ensures
            support == self@.sync_fd,
    {
        self.sync_fd
    }

    /// Number of pending submissions.
    pub fn pending_len(&self) -> (len: usize)
        ensures
            len == self@.pending.len(),
    {
        self.pending.len()
    }

    /// A pending submission.
    pub fn pending(&self, index: usize) -> (completion: &P)
        requires
            index < self@.pending.len(),
        ensures
            *completion == self@.pending[index as int],
    {
        &self.pending[index]
    }

    /// Gives up all pending submissions, for teardown.
    pub fn take_pending(&mut self) -> (pending: Vec<P>)
        ensures
            pending@ == old(self)@.pending,
            final(self)@ == (BridgeView { pending: seq![], ..old(self)@ }),
    {
        let mut pending: Vec<P> = Vec::new();
        std::mem::swap(&mut self.pending, &mut pending);
        assert(self@.pending =~= seq![]);
        pending
    }

    /// Gives up all idle sets, for teardown.
    pub fn take_idle(&mut self) -> (idle: Vec<Resources>)
        ensures
            idle@ == old(self)@.idle,
            final(self)@ == (BridgeView { idle: seq![], ..old(self)@ }),
    {
        let mut idle: Vec<Resources> = Vec::new();
        std::mem::swap(&mut self.idle, &mut idle);
        assert(self@.idle =~= seq![]);
        idle
    }

    /// Looks for the source modifiers that can be imported for an exact format and size. `format`
    /// is the Vulkan format of the FourCC, if there is one.
    ///
    /// Only explicit single-plane modifiers that can be copied from and imported as dma-bufs are
    /// enumerated. Intersect these with the source's render formats BEFORE allocating the source;
    /// a native allocator modifier is not necessarily importable. The result is numerically
    /// sorted, not a performance preference. An empty result means no supported combination. Up to
    /// eight queries (including empty results) are cached.
    pub fn source_modifiers(
        &mut self,
        fourcc: u32,
        width: u32,
        height: u32,
        format: Option<i32>,
    ) -> (query: Result<ModifierQuery, VkBridgeError>)
        requires
            old(self)@.caches_ok(),
        ensures
            final(self)@.caches_ok(),
            ({
                let queries = old(self)@.queries;
                let i = query_position(queries, fourcc, width, height, 0);
                if width == 0 || height == 0 || width > i32::MAX || height > i32::MAX {
                    &&& query matches Err(err)
                    &&& err@ == ErrorView::Unsupported("invalid source modifier query dimensions"@)
                    &&& final(self)@ == old(self)@
                } else if format is None {
                    &&& query matches Err(err)
                    &&& err@ == ErrorView::Unsupported("unknown FourCC"@)
                    &&& final(self)@ == old(self)@
                } else if i < queries.len() {
                    &&& query matches Ok(ModifierQuery::Known(list))
                    &&& list@ == queries[i].modifiers
                    &&& strictly_increasing(list@)
                    &&& final(self)@ == (BridgeView { queries: touched(queries, i), ..old(self)@ })
                } else {
                    &&& query matches Ok(ModifierQuery::Negotiate(n))
                    &&& n.wf()
                    &&& n.fourcc == fourcc
                    &&& n.width == width
                    &&& n.height == height
                    &&& Some(n.format) == format
                    &&& n.candidates is None
                    &&& n.next == 0
                    &&& n.found@ == Seq::<u64>::empty()
                    &&& final(self)@ == old(self)@
                }
            }),
            query matches Ok(ModifierQuery::Known(list)) ==> exists|i: int|
                0 <= i < old(self)@.queries.len() && (#[trigger] old(self)@.queries[i]).fourcc
                    == fourcc && old(self)@.queries[i].width == width
                    && old(self)@.queries[i].height == height && list@
                    == old(self)@.queries[i].modifiers,
            query matches Ok(ModifierQuery::Negotiate(_)) ==> forall|i: int|
                0 <= i < old(self)@.queries.len() ==> !((#[trigger] old(self)@.queries[i]).fourcc
                    == fourcc && old(self)@.queries[i].width == width
                    && old(self)@.queries[i].height == height),
    {
        if width == 0 || height == 0 || width > i32::MAX as u32 || height > i32::MAX as u32 {
            return Err(VkBridgeError::Unsupported("invalid source modifier query dimensions"));
        }
        let format: i32 = match format {
            Some(format) => format,
            None => {
                return Err(VkBridgeError::Unsupported("unknown FourCC"));
            },
        };
        let ghost queries = self@.queries;
        proof {
            cached_answers_are_of_the_same_query(queries, fourcc, width, height);
        }
        let mut i: usize = 0;
        while i < self.source_modifiers.len()
            invariant
                self@ == old(self)@,
                queries == self@.queries,
                i <= queries.len(),
                query_position(queries, fourcc, width, height, 0) == query_position(
                    queries,
                    fourcc,
                    width,
                    height,
                    i as int,
                ),
            ensures
                self@ == old(self)@,
                i <= queries.len(),
                query_position(queries, fourcc, width, height, 0) == i,
            decreases queries.len() - i,
        {
            let entry = &self.source_modifiers[i];
            assert(queries[i as int] == entry@);
            if entry.fourcc == fourcc && entry.width == width && entry.height == height {
                break ;
            }
            i += 1;
        }
        if i < self.source_modifiers.len() {
            if let Some(entry) = self.source_modifiers.remove(i) {
                assert(entry@ == queries[i as int]);
                let list: Vec<u64> = entry.modifiers.clone();
                assert(list@ =~= entry.modifiers@);
                self.source_modifiers.push_back(entry);
                assert(self@.queries =~= touched(queries, i as int));
                return Ok(ModifierQuery::Known(list));
            }
        }
        Ok(ModifierQuery::Negotiate(Negotiation::new(fourcc, width, height, format)))
    }

    /// Caches a completed enumeration and returns what it found. `None`, with nothing cached, while
    /// the enumeration still has a question.
    pub fn negotiated(&mut self, negotiation: Negotiation) -> (modifiers: Option<Vec<u64>>)
        requires
            old(self)@.caches_ok(),
            negotiation.wf(),
            query_position(
                old(self)@.queries,
                negotiation.fourcc,
                negotiation.width,
                negotiation.height,
                0,
            ) >= old(self)@.queries.len(),
        ensures
            final(self)@.caches_ok(),
            question_of(negotiation) == Question::Nothing ==> {
                &&& modifiers matches Some(list)
                &&& list@ == negotiation.found@
                &&& strictly_increasing(list@)
                &&& final(self)@ == (BridgeView {
                    queries: admitted(
                        old(self)@.queries,
                        MAX_MODIFIER_QUERIES as nat,
                        QueryView {
                            fourcc: negotiation.fourcc,
                            width: negotiation.width,
                            height: negotiation.height,
                            modifiers: negotiation.found@,
                        },
                    ),
                    ..old(self)@
                })
            },
            question_of(negotiation) != Question::Nothing ==> modifiers is None && final(self)@
                == old(self)@,
    {
        if negotiation.question() != Question::Nothing {
            return None;
        }
        let ghost queries = self@.queries;
        proof {
            lemma_query_position(
                queries,
                negotiation.fourcc,
                negotiation.width,
                negotiation.height,
                0,
            );
        }
        let list: Vec<u64> = negotiation.found.clone();
        assert(list@ =~= negotiation.found@);
        if self.source_modifiers.len() == MAX_MODIFIER_QUERIES {
            let _evicted = self.source_modifiers.pop_front();
        }
        self.source_modifiers.push_back(
            SourceModifiers {
                fourcc: negotiation.fourcc,
                width: negotiation.width,
                height: negotiation.height,
                modifiers: negotiation.found,
            },
        );
        assert(self@.queries =~= admitted(
            queries,
            MAX_MODIFIER_QUERIES as nat,
            QueryView {
                fourcc: negotiation.fourcc,
                width: negotiation.width,
                height: negotiation.height,
                modifiers: negotiation.found@,
            },
        ));
        Some(list)
    }

    /// The image that leaves a full cache next. Whoever holds it decides when it is destroyed.
    pub fn oldest_import(&self) -> (image: Option<Arc<Imported<H>>>)
        ensures
            image == if self@.imports.len() > 0 {
                Some(self@.imports[0])
            } else {
                None
            },
    {
        if self.imports.len() > 0 {
            Some(share(&self.imports[0]))
        } else {
            None
        }
    }

    /// Takes a cached import, marking it as the most recently used.
    pub(crate) fn cached_import(&mut self, buffer: u64, source: bool) -> (image: Option<
        Arc<Imported<H>>,
    >)
        requires
            old(self)@.caches_ok(),
        ensures
            final(self)@.caches_ok(),
            ({
                let i = import_position(old(self)@.imports, buffer, source, 0);
                if i < old(self)@.imports.len() {
                    &&& image == Some(old(self)@.imports[i])
                    &&& final(self)@ == (BridgeView {
                        imports: touched(old(self)@.imports, i),
                        ..old(self)@
                    })
                } else {
                    &&& image is None
                    &&& final(self)@ == old(self)@
                }
            }),
            image matches Some(found) ==> found.buffer == buffer && found.source == source,
            image is None ==> forall|i: int|
                0 <= i < old(self)@.imports.len() ==> !((#[trigger] old(self)@.imports[i]).buffer
                    == buffer && old(self)@.imports[i].source == source),
    {
        proof {
            lemma_import_position(self@.imports, buffer, source, 0);
        }
        let ghost imports = self@.imports;
        let mut i: usize = 0;
        while i < self.imports.len()
            invariant
                self@ == old(self)@,
                imports == self@.imports,
                i <= imports.len(),
                import_position(imports, buffer, source, 0) == import_position(
                    imports,
                    buffer,
                    source,
                    i as int,
                ),
            ensures
                self@ == old(self)@,
                i <= imports.len(),
                import_position(imports, buffer, source, 0) == i,
            decreases imports.len() - i,
        {
            let entry = &self.imports[i];
            if entry.buffer == buffer && entry.source == source {
                break ;
            }
            i += 1;
        }
        if i < self.imports.len() {
            if let Some(entry) = self.imports.remove(i) {
                let image = share(&entry);
                self.imports.push_back(entry);
                assert(self@.imports =~= touched(imports, i as int));
                return Some(image);
            }
        }
        None
    }

    /// Caches a new import; a full cache drops its least recently used image.
    pub(crate) fn cache_import(&mut self, image: Arc<Imported<H>>)
        requires
            old(self)@.caches_ok(),
            import_position(old(self)@.imports, image.buffer, image.source, 0) == old(self)@.imports.len(),
        ensures
            final(self)@.caches_ok(),
            final(self)@ == (BridgeView {
                imports: admitted(old(self)@.imports, MAX_IMPORTS as nat, image),
                ..old(self)@
            }),
    {
        let ghost imports = self@.imports;
        proof {
            lemma_import_position(imports, image.buffer, image.source, 0);
        }
        if self.imports.len() == MAX_IMPORTS {
            let _evicted = self.imports.pop_front();
        }
        self.imports.push_back(image);
        assert(self@.imports =~= admitted(imports, MAX_IMPORTS as nat, image));
    }

    /// Takes the most recently returned idle set.
    pub(crate) fn pop_idle(&mut self) -> (checkout: crate::resources::Checkout<Resources>)
        ensures
            old(self)@.idle.len() == 0 ==> checkout.resources is None && final(self)@ == old(self)@,
            old(self)@.idle.len() > 0 ==> checkout.resources == Some(old(self)@.idle.last())
                && final(self)@ == (BridgeView { idle: old(self)@.idle.drop_last(), ..old(self)@ }),
    {
        crate::resources::Checkout::take(&mut self.idle)
    }

    /// Ends a checkout: its set becomes idle again, unless it was submitted.
    pub(crate) fn end_checkout(&mut self, checkout: crate::resources::Checkout<Resources>)
        ensures
            final(self)@ == (BridgeView {
                idle: match checkout.resources {
                    Some(resources) => old(self)@.idle.push(resources),
                    None => old(self)@.idle,
                },
                ..old(self)@
            }),
    {
        checkout.finish(&mut self.idle);
    }

    /// Moves the set of a retired submission back to the idle ones.
    pub(crate) fn recycle(&mut self, index: usize, resources: Resources)
        requires
            index < old(self)@.pending.len(),
        ensures
            final(self)@ == (BridgeView {
                pending: old(self)@.pending.update(
                    index as int,
                    old(self)@.pending.last(),
                ).drop_last(),
                idle: old(self)@.idle.push(resources),
                ..old(self)@
            }),
    {
        let _retired = self.pending.swap_remove(index);
        self.idle.push(resources);
    }

    /// Adds a pending submission.
    pub(crate) fn push_pending(&mut self, completion: P)
        ensures
            final(self)@ == (BridgeView {
                pending: old(self)@.pending.push(completion),
                ..old(self)@
            }),
    {
        self.pending.push(completion);
    }
}

proof fn lemma_query_position(
    queries: Seq<QueryView>,
    fourcc: u32,
    width: u32,
    height: u32,
    from: int,
)
    requires
        0 <= from <= queries.len(),
    ensures
        from <= query_position(queries, fourcc, width, height, from) <= queries.len(),
        query_position(queries, fourcc, width, height, from) < queries.len() ==> answers(
            queries[query_position(queries, fourcc, width, height, from)],
            fourcc,
            width,
            height,
        ),
        query_position(queries, fourcc, width, height, from) == queries.len() ==> forall|i: int|
            from <= i < queries.len() ==> !answers(#[trigger] queries[i], fourcc, width, height),
    decreases queries.len() - from,
{
    if from < queries.len() && !answers(queries[from], fourcc, width, height) {
        lemma_query_position(queries, fourcc, width, height, from + 1);
    }
}

pub(crate) proof fn lemma_import_position<H>(
    imports: Seq<Arc<Imported<H>>>,
    buffer: u64,
    source: bool,
    from: int,
)
    requires
        0 <= from <= imports.len(),
    ensures
        from <= import_position(imports, buffer, source, from) <= imports.len(),
        ({
            let i = import_position(imports, buffer, source, from);
            i < imports.len() ==> imports[i].buffer == buffer && imports[i].source == source
        }),
        import_position(imports, buffer, source, from) == imports.len() ==> forall|i: int|
            from <= i < imports.len() ==> !((#[trigger] imports[i]).buffer == buffer
                && imports[i].source == source),
    decreases imports.len() - from,
{
    if from < imports.len() && !(imports[from].buffer == buffer && imports[from].source
        == source) {
        lemma_import_position(imports, buffer, source, from + 1);
    }
}

/// A query is answered from the cache exactly if there is an entry of the same FourCC, the same
/// width and the same height.
pub proof fn cached_answers_are_of_the_same_query(
    queries: Seq<QueryView>,
    fourcc: u32,
    width: u32,
    height: u32,
)
    ensures
        ({
            let i = query_position(queries, fourcc, width, height, 0);
            &&& 0 <= i <= queries.len()
            &&& i < queries.len() ==> {
                &&& queries[i].fourcc == fourcc
                &&& queries[i].width == width
                &&& queries[i].height == height
            }
            &&& i == queries.len() ==> forall|j: int|
                0 <= j < queries.len() ==> !((#[trigger] queries[j]).fourcc == fourcc
                    && queries[j].width == width && queries[j].height == height)
        }),
{
    lemma_query_position(queries, fourcc, width, height, 0);
}

/// An image is taken from the cache exactly if it was imported from the same buffer in the same
/// role.
pub proof fn cached_images_are_of_the_same_buffer_and_role<H>(
    imports: Seq<Arc<Imported<H>>>,
    buffer: u64,
    source: bool,
)
    ensures
        ({
            let i = import_position(imports, buffer, source, 0);
            &&& 0 <= i <= imports.len()
            &&& i < imports.len() ==> imports[i].buffer == buffer && imports[i].source == source
            &&& i == imports.len() ==> forall|j: int|
                0 <= j < imports.len() ==> !((#[trigger] imports[j]).buffer == buffer
                    && imports[j].source == source)
        }),
{
    lemma_import_position(imports, buffer, source, 0);
}

/// There are up to eight cached images, eight pending submissions and eight cached queries.
pub proof fn bounds_are_eight<H, P>(b: BridgeView<H, P>)
    requires
        b.wf(),
    ensures
        b.imports.len() <= 8,
        b.queries.len() <= 8,
        b.pending.len() + b.idle.len() <= 8,
        MAX_IMPORTS == 8 && MAX_PENDING == 8 && MAX_MODIFIER_QUERIES == 8,
{
}

/// Valid caches hold every image once in each role, and every query once with a sorted answer.
pub proof fn caches_hold_every_key_once<H, P>(b: BridgeView<H, P>, i: int, j: int)
    requires
        b.caches_ok(),
    ensures
        0 <= i < b.imports.len() && 0 <= j < b.imports.len() && b.imports[i].buffer
            == b.imports[j].buffer && b.imports[i].source == b.imports[j].source ==> i == j,
        0 <= i < b.queries.len() && 0 <= j < b.queries.len() && b.queries[i].fourcc
            == b.queries[j].fourcc && b.queries[i].width == b.queries[j].width
            && b.queries[i].height == b.queries[j].height ==> i == j,
        0 <= i < b.queries.len() ==> forall|k: int, l: int|
            0 <= k < l < b.queries[i].modifiers.len() ==> b.queries[i].modifiers[k]
                < b.queries[i].modifiers[l],
{
    if i < j {
        let _ = (b.imports[i], b.imports[j], b.queries[i], b.queries[j]);
    } else {
        let _ = (b.imports[j], b.imports[i], b.queries[j], b.queries[i]);
    }
}

/// A cache never exceeds its capacity. A new element and a touched one are the last to be evicted,
/// the others keep their order, and only a full cache loses one: its least recently used.
pub proof fn caches_are_bounded_and_keep_recent_entries<T>(
    list: Seq<T>,
    capacity: nat,
    element: T,
    i: int,
)
    requires
        0 < capacity,
        list.len() <= capacity,
    ensures
        admitted(list, capacity, element).len() <= capacity,
        admitted(list, capacity, element).last() == element,
        list.len() < capacity ==> admitted(list, capacity, element).drop_last() == list,
        list.len() == capacity ==> admitted(list, capacity, element).drop_last()
            == list.drop_first(),
        0 <= i < list.len() ==> {
            &&& touched(list, i).len() == list.len()
            &&& touched(list, i).last() == list[i]
            &&& touched(list, i).drop_last() == list.remove(i)
        },
{
    assert(admitted(list, capacity, element).drop_last() =~= if list.len() == capacity {
        list.drop_first()
    } else {
        list
    });
    if 0 <= i < list.len() {
        assert(touched(list, i).drop_last() =~= list.remove(i));
    }
}

/// An entry ages by at most one place with each use of another entry, and leaves the cache only
/// when it is the least recently used of a full one: as long as fewer than `capacity` other entries
/// were used since, it is there.
pub proof fn entries_age_by_one<T>(list: Seq<T>, capacity: nat, i: int, j: int, element: T)
    requires
        0 <= i < list.len() <= capacity,
        0 <= j < list.len(),
        i != j,
    ensures
        ({
            let used = touched(list, j);
            let k = if j < i {
                i - 1
            } else {
                i
            };
            &&& used[k] == list[i]
            &&& used.len() - k <= list.len() - i + 1
        }),
        ({
            let grown = admitted(list, capacity, element);
            let k = if list.len() == capacity {
                i - 1
            } else {
                i
            };
            list.len() - i < capacity ==> {
                &&& 0 <= k < grown.len()
                &&& grown[k] == list[i]
                &&& grown.len() - k == list.len() - i + 1
            }
        }),
{
}

/// A query that was just enumerated is answered from the cache next time, with the same modifiers.
pub proof fn recent_query_is_remembered(queries: Seq<QueryView>, entry: QueryView)
    requires
        forall|i: int|
            0 <= i < queries.len() ==> !answers(
                #[trigger] queries[i],
                entry.fourcc,
                entry.width,
                entry.height,
            ),
    ensures
        ({
            let after = admitted(queries, MAX_MODIFIER_QUERIES as nat, entry);
            let i = query_position(after, entry.fourcc, entry.width, entry.height, 0);
            i < after.len() && after[i] == entry
        }),
{
    let after = admitted(queries, MAX_MODIFIER_QUERIES as nat, entry);
    lemma_only_last_answers(after, entry, 0);
}

/// A query that was just answered from the cache is answered from it again, with the same
/// modifiers.
pub proof fn answered_query_stays_remembered(queries: Seq<QueryView>, i: int)
    requires
        0 <= i < queries.len(),
        forall|j: int, k: int|
            0 <= j < k < queries.len() ==> !answers(
                #[trigger] queries[j],
                (#[trigger] queries[k]).fourcc,
                queries[k].width,
                queries[k].height,
            ),
    ensures
        ({
            let after = touched(queries, i);
            let entry = queries[i];
            let k = query_position(after, entry.fourcc, entry.width, entry.height, 0);
            k < after.len() && after[k] == entry
        }),
{
    let after = touched(queries, i);
    let entry = queries[i];
    assert forall|k: int| 0 <= k < after.len() - 1 implies !answers(
        #[trigger] after[k],
        entry.fourcc,
        entry.width,
        entry.height,
    ) by {
        let other = if k < i {
            queries[k]
        } else {
            queries[k + 1]
        };
        assert(after[k] == other);
    }
    lemma_only_last_answers(after, entry, 0);
}

proof fn lemma_only_last_answers(list: Seq<QueryView>, entry: QueryView, from: int)
    requires
        0 <= from < list.len(),
        list.last() == entry,
        forall|i: int|
            0 <= i < list.len() - 1 ==> !answers(
                #[trigger] list[i],
                entry.fourcc,
                entry.width,
                entry.height,
            ),
    ensures
        query_position(list, entry.fourcc, entry.width, entry.height, from) == list.len() - 1,
    decreases list.len() - from,
{
    if from < list.len() - 1 {
        lemma_only_last_answers(list, entry, from + 1);
    }
}

} // verus!
