//! Enumeration of the source modifiers that the engine can import.

use crate::error::{ErrorView, VkBridgeError, VkResult};
use crate::modifiers::{
    fits, fits_image, import_properties, importable, single_plane_transfer, transferable,
    ImportReply, ModifierProperties,
};
use vstd::prelude::*;

verus! {

/// An enumeration that is not cached yet.
#[derive(Debug)]
pub struct Negotiation {
    /// FourCC of the source.
    pub fourcc: u32,
    /// Extent of the source.
    pub width: u32,
    pub height: u32,
    /// Vulkan format of the FourCC.
    pub format: i32,
    /// What the driver lists for the format, once it was asked.
    pub candidates: Option<Vec<ModifierProperties>>,
    /// First candidate that is not decided.
    pub next: usize,
    /// Modifiers found so far, sorted.
    pub found: Vec<u64>,
}

/// What an enumeration asks of the driver next.
#[derive(Clone, Copy, Debug, PartialEq, Eq, Structural)]
pub enum Question {
    /// List the modifiers of a format.
    List { format: i32 },
    /// Query import support of a copy source.
    Import { format: i32, modifier: u64 },
    /// Nothing: the enumeration is complete.
    Nothing,
}

/// Each element is less than all later ones.
pub open spec fn strictly_increasing(list: Seq<u64>) -> bool {
    forall|i: int, j: int| 0 <= i < j < list.len() ==> list[i] < list[j]
}

/// The sorted list with `value` in its place, once.
pub open spec fn insert_sorted(list: Seq<u64>, value: u64) -> Seq<u64>
    decreases list.len(),
{
    if list.len() == 0 {
        seq![value]
    } else if list.last() < value {
        list.push(value)
    } else if list.last() == value {
        list
    } else {
        insert_sorted(list.drop_last(), value).push(list.last())
    }
}

/// First candidate from `from` on that is a transferable source layout; the number of candidates
/// if there is none.
pub open spec fn next_candidate(candidates: Seq<ModifierProperties>, from: int) -> int
    decreases candidates.len() - from,
{
    if from >= candidates.len() {
        candidates.len() as int
    } else if transferable(candidates[from], true) {
        from
    } else {
        next_candidate(candidates, from + 1)
    }
}

/// The question that an enumeration has reached.
pub open spec fn question_of(n: Negotiation) -> Question {
    match n.candidates {
        None => Question::List { format: n.format },
        Some(list) => {
            let i = next_candidate(list@, n.next as int);
            if i < list@.len() {
                Question::Import { format: n.format, modifier: list@[i].modifier }
            } else {
                Question::Nothing
            }
        },
    }
}

/// An answer that admits the source: importable, at the extent asked for.
pub open spec fn admits(reply: Result<ImportReply, VkResult>, width: u32, height: u32) -> bool {
    importable(reply) matches Ok(Some(limits)) && fits(limits, width, height)
}

/// Whether `after` is the enumeration `before` with the candidate that it asks about decided by
/// `reply`.
pub open spec fn decided(
    before: Negotiation,
    reply: Result<ImportReply, VkResult>,
    after: Negotiation,
) -> bool {
    &&& after.fourcc == before.fourcc
    &&& after.width == before.width
    &&& after.height == before.height
    &&& after.format == before.format
    &&& after.candidates == before.candidates
    &&& before.candidates matches Some(list)
    &&& after.next == next_candidate(list@, before.next as int) + 1
    &&& after.found@ == if admits(reply, before.width, before.height) {
        insert_sorted(
            before.found@,
            list@[next_candidate(list@, before.next as int)].modifier,
        )
    } else {
        before.found@
    }
}

fn insert(list: &mut Vec<u64>, value: u64)
    ensures
        final(list)@ == insert_sorted(old(list)@, value),
{
    let ghost start = list@;
    let mut i: usize = list.len();
    assert(start.take(i as int) =~= start);
    assert(start.skip(i as int) =~= seq![]);
    assert(insert_sorted(start, value) =~= insert_sorted(start, value) + start.skip(i as int));
    while i > 0 && list[i - 1] > value
        invariant
            i <= start.len(),
            list@ == start,
            insert_sorted(start, value) == insert_sorted(start.take(i as int), value) + start.skip(
                i as int,
            ),
        decreases i,
    {
        proof {
            let longer = start.take(i as int);
            let shorter = start.take(i - 1);
            assert(longer.drop_last() =~= shorter);
            assert(insert_sorted(longer, value) == insert_sorted(shorter, value).push(
                start[i - 1],
            ));
            assert(insert_sorted(longer, value) + start.skip(i as int) =~= insert_sorted(
                shorter,
                value,
            ) + start.skip(i - 1));
        }
        i -= 1;
    }
    let ghost rest = start.take(i as int);
    if i > 0 && list[i - 1] == value {
        assert(rest + start.skip(i as int) =~= start);
        return ;
    }
    list.insert(i, value);
    assert(insert_sorted(rest, value) =~= rest.push(value));
    assert(list@ =~= rest.push(value) + start.skip(i as int));
}

fn first_candidate(candidates: &Vec<ModifierProperties>, from: usize) -> (i: usize)
    requires
        from <= candidates@.len(),
    ensures
        i == next_candidate(candidates@, from as int),
        from <= i <= candidates@.len(),
{
    let mut i: usize = from;
    while i < candidates.len()
        invariant
            from <= i <= candidates@.len(),
            next_candidate(candidates@, from as int) == next_candidate(candidates@, i as int),
        decreases candidates@.len() - i,
    {
        if single_plane_transfer(&candidates[i], true) {
            return i;
        }
        i += 1;
    }
    i
}

impl Negotiation {
    /// Validity: every candidate before `next` exists, and what was found is sorted.
    pub open spec fn wf(self) -> bool {
        &&& strictly_increasing(self.found@)
        &&& match self.candidates {
            Some(list) => self.next <= list@.len(),
            None => self.next == 0,
        }
    }

    /// Starts an enumeration.
    pub fn new(fourcc: u32, width: u32, height: u32, format: i32) -> (n: Negotiation)
        ensures
            n.wf(),
            n.fourcc == fourcc,
            n.width == width,
            n.height == height,
            n.format == format,
            n.candidates is None,
            n.next == 0,
            n.found@ == Seq::<u64>::empty(),
    {
        Negotiation {
            fourcc,
            width,
            height,
            format,
            candidates: None,
            next: 0,
            found: Vec::new(),
        }
    }

    /// What to ask the driver next.
    pub fn question(&self) -> (question: Question)
        requires
            self.wf(),
        ensures
            question == question_of(*self),
    {
        match &self.candidates {
            None => Question::List { format: self.format },
            Some(list) => {
                let i: usize = first_candidate(list, self.next);
                if i < list.len() {
                    Question::Import { format: self.format, modifier: list[i].modifier }
                } else {
                    Question::Nothing
                }
            },
        }
    }

    /// Takes the driver's list of modifiers, or why it could not be had.
    pub fn listed(&mut self, list: Result<Vec<ModifierProperties>, String>) -> (taken: Result<
        (),
        VkBridgeError,
    >)
        ensures
            final(self).wf(),
            final(self).fourcc == old(self).fourcc,
            final(self).width == old(self).width,
            final(self).height == old(self).height,
            final(self).format == old(self).format,
            final(self).next == 0,
            final(self).found@ == Seq::<u64>::empty(),
            match list {
                Ok(candidates) => taken is Ok && final(self).candidates == Some(candidates),
                Err(message) => {
                    &&& taken matches Err(err)
                    &&& err@ == ErrorView::Setup(message@)
                    &&& final(self).candidates is None
                },
            },
    {
        self.next = 0;
        self.found = Vec::new();
        match list {
            Ok(candidates) => {
                self.candidates = Some(candidates);
                Ok(())
            },
            Err(message) => {
                self.candidates = None;
                Err(VkBridgeError::Setup(message))
            },
        }
    }

    /// Takes the driver's answer to the import query that [`Negotiation::question`] asked for. An
    /// error ends the enumeration; without an open query nothing changes.
    pub fn answered(&mut self, reply: Result<ImportReply, VkResult>) -> (taken: Result<
        (),
        VkBridgeError,
    >)
        requires
            old(self).wf(),
        ensures
            final(self).wf(),
            match question_of(*old(self)) {
                Question::Import { .. } => match importable(reply) {
                    Err(err) => {
                        &&& taken matches Err(e)
                        &&& e@ == ErrorView::Vk(err)
                        &&& *final(self) == *old(self)
                    },
                    Ok(_) => taken is Ok && decided(*old(self), reply, *final(self)),
                },
                _ => taken is Ok && *final(self) == *old(self),
            },
    {
        let (i, modifier): (usize, u64) = match &self.candidates {
            None => {
                return Ok(());
            },
            Some(list) => {
                let i: usize = first_candidate(list, self.next);
                if i >= list.len() {
                    return Ok(());
                }
                assert(i < list.len());
                (i, list[i].modifier)
            },
        };
        match import_properties(reply) {
            Err(err) => Err(err),
            Ok(limits) => {
                if let Some(limits) = limits {
                    if fits_image(&limits, self.width, self.height) {
                        proof {
                            lemma_insert_sorted(self.found@, modifier);
                        }
                        insert(&mut self.found, modifier);
                    }
                }
                self.next = i + 1;
                Ok(())
            },
        }
    }
}

proof fn lemma_insert_sorted(list: Seq<u64>, value: u64)
    requires
        strictly_increasing(list),
    ensures
        strictly_increasing(insert_sorted(list, value)),
        forall|m: u64|
            #[trigger] insert_sorted(list, value).contains(m) <==> list.contains(m) || m == value,
    decreases list.len(),
{
    let result = insert_sorted(list, value);
    if list.len() == 0 {
        assert(result[0] == value);
    } else if list.last() < value {
        assert forall|m: u64| list.contains(m) || m == value implies #[trigger] result.contains(
            m,
        ) by {
            if list.contains(m) {
                let k = choose|k: int| 0 <= k < list.len() && list[k] == m;
                assert(result[k] == m);
            } else {
                assert(result[list.len() as int] == m);
            }
        }
    } else if list.last() == value {
        assert(list[list.len() - 1] == value);
    } else {
        let rest = list.drop_last();
        let below = insert_sorted(rest, value);
        lemma_insert_sorted(rest, value);
        assert forall|k: int| 0 <= k < below.len() implies below[k] < list.last() by {
            assert(below.contains(below[k]));
            if rest.contains(below[k]) {
                let j = choose|j: int| 0 <= j < rest.len() && rest[j] == below[k];
                assert(list[j] < list[list.len() - 1]);
            }
        }
        assert forall|m: u64| list.contains(m) || m == value implies #[trigger] result.contains(
            m,
        ) by {
            if list.contains(m) {
                let k = choose|k: int| 0 <= k < list.len() && list[k] == m;
                if k < rest.len() {
                    assert(rest[k] == m);
                    assert(below.contains(m));
                    let j = choose|j: int| 0 <= j < below.len() && below[j] == m;
                    assert(result[j] == m);
                } else {
                    assert(result[result.len() - 1] == m);
                }
            } else {
                assert(below.contains(m));
                let j = choose|j: int| 0 <= j < below.len() && below[j] == m;
                assert(result[j] == m);
            }
        }
        assert forall|m: u64| #[trigger] result.contains(m) implies list.contains(m) || m
            == value by {
            let k = choose|k: int| 0 <= k < result.len() && result[k] == m;
            if k < below.len() {
                assert(below.contains(m));
                if rest.contains(m) {
                    let j = choose|j: int| 0 <= j < rest.len() && rest[j] == m;
                    assert(list[j] == m);
                }
            } else {
                assert(list[list.len() - 1] == m);
            }
        }
    }
}

/// Whether candidate `i` is a transferable source layout whose query admits the extent.
pub open spec fn accepted(
    candidate: ModifierProperties,
    reply: Result<ImportReply, VkResult>,
    width: u32,
    height: u32,
) -> bool {
    transferable(candidate, true) && admits(reply, width, height)
}

/// What is found among the first `n` candidates, given an answer for each of them.
pub open spec fn found_among(
    candidates: Seq<ModifierProperties>,
    replies: Seq<Result<ImportReply, VkResult>>,
    width: u32,
    height: u32,
    n: int,
) -> Seq<u64>
    decreases n,
{
    if n <= 0 {
        seq![]
    } else {
        let before = found_among(candidates, replies, width, height, n - 1);
        if accepted(candidates[n - 1], replies[n - 1], width, height) {
            insert_sorted(before, candidates[n - 1].modifier)
        } else {
            before
        }
    }
}

/// Enumeration is exact: the result is numerically sorted without duplicates, and holds exactly
/// the explicit single-plane modifiers with transfer support that are importable at the extent.
pub proof fn enumeration_is_exact(
    candidates: Seq<ModifierProperties>,
    replies: Seq<Result<ImportReply, VkResult>>,
    width: u32,
    height: u32,
    n: int,
    modifier: u64,
)
    requires
        0 <= n <= candidates.len(),
        replies.len() == candidates.len(),
    ensures
        strictly_increasing(found_among(candidates, replies, width, height, n)),
        found_among(candidates, replies, width, height, n).contains(modifier) <==> exists|i: int|
            #![trigger candidates[i]]
            0 <= i < n && candidates[i].modifier == modifier && accepted(
                candidates[i],
                replies[i],
                width,
                height,
            ),
    decreases n,
{
    if n > 0 {
        enumeration_is_exact(candidates, replies, width, height, n - 1, modifier);
        let before = found_among(candidates, replies, width, height, n - 1);
        lemma_insert_sorted(before, candidates[n - 1].modifier);
        let now = found_among(candidates, replies, width, height, n);
        if before.contains(modifier) {
            let i = choose|i: int|
                #![trigger candidates[i]]
                0 <= i < n - 1 && candidates[i].modifier == modifier && accepted(
                    candidates[i],
                    replies[i],
                    width,
                    height,
                );
            assert(candidates[i].modifier == modifier);
            assert(now.contains(modifier));
        }
        if now.contains(modifier) && !before.contains(modifier) {
            assert(candidates[n - 1].modifier == modifier);
        }
    }
}

/// The steps of an enumeration find what [`found_among`] says: deciding candidate `i` after the
/// ones before it, with its answer where it is asked for.
pub proof fn steps_follow_the_candidates(
    candidates: Seq<ModifierProperties>,
    replies: Seq<Result<ImportReply, VkResult>>,
    width: u32,
    height: u32,
    from: int,
)
    requires
        0 <= from <= candidates.len(),
        replies.len() == candidates.len(),
    ensures
        ({
            let i = next_candidate(candidates, from);
            &&& from <= i <= candidates.len()
            &&& found_among(candidates, replies, width, height, i) == found_among(
                candidates,
                replies,
                width,
                height,
                from,
            )
            &&& i < candidates.len() ==> found_among(candidates, replies, width, height, i + 1)
                == if admits(replies[i], width, height) {
                insert_sorted(
                    found_among(candidates, replies, width, height, from),
                    candidates[i].modifier,
                )
            } else {
                found_among(candidates, replies, width, height, from)
            }
        }),
    decreases candidates.len() - from,
{
    if from < candidates.len() && !transferable(candidates[from], true) {
        steps_follow_the_candidates(candidates, replies, width, height, from + 1);
    }
}

/// The states of an enumeration, one answer after another: it begins with the driver's list, every
/// query is answered as `answers` says of the modifier, and in the end nothing is left to ask.
pub open spec fn is_enumeration(
    run: Seq<Negotiation>,
    list: Vec<ModifierProperties>,
    answers: spec_fn(u64) -> Result<ImportReply, VkResult>,
) -> bool {
    &&& run.len() > 0
    &&& run[0].candidates == Some(list)
    &&& run[0].next == 0
    &&& run[0].found@ == Seq::<u64>::empty()
    &&& forall|j: int| 0 <= j < run.len() - 1 ==> follows(run, answers, j)
    &&& question_of(run.last()) == Question::Nothing
}

/// State `j + 1` of an enumeration is state `j` with its question answered.
pub open spec fn follows(
    run: Seq<Negotiation>,
    answers: spec_fn(u64) -> Result<ImportReply, VkResult>,
    j: int,
) -> bool {
    &&& question_of(run[j]) matches Question::Import { modifier, .. }
    &&& decided(run[j], answers(modifier), run[j + 1])
}

/// The answer for each candidate.
pub open spec fn replies_for(
    candidates: Seq<ModifierProperties>,
    answers: spec_fn(u64) -> Result<ImportReply, VkResult>,
) -> Seq<Result<ImportReply, VkResult>> {
    Seq::new(candidates.len(), |i: int| answers(candidates[i].modifier))
}

proof fn lemma_enumeration(
    run: Seq<Negotiation>,
    list: Vec<ModifierProperties>,
    answers: spec_fn(u64) -> Result<ImportReply, VkResult>,
    j: int,
)
    requires
        is_enumeration(run, list, answers),
        0 <= j < run.len(),
    ensures
        run[j].candidates == Some(list),
        run[j].width == run[0].width,
        run[j].height == run[0].height,
        run[j].next <= list@.len(),
        run[j].found@ == found_among(
            list@,
            replies_for(list@, answers),
            run[0].width,
            run[0].height,
            run[j].next as int,
        ),
    decreases j,
{
    if j > 0 {
        lemma_enumeration(run, list, answers, j - 1);
        assert(follows(run, answers, j - 1));
        steps_follow_the_candidates(
            list@,
            replies_for(list@, answers),
            run[0].width,
            run[0].height,
            run[j - 1].next as int,
        );
    }
}

/// A completed enumeration found exactly what there is: its result is sorted without duplicates,
/// and a modifier is in it if and only if the driver lists it as an explicit single-plane layout
/// with transfer support and its import query admits the extent.
pub proof fn completed_enumerations_are_exact(
    run: Seq<Negotiation>,
    list: Vec<ModifierProperties>,
    answers: spec_fn(u64) -> Result<ImportReply, VkResult>,
    modifier: u64,
)
    requires
        is_enumeration(run, list, answers),
    ensures
        run.last().found@ == found_among(
            list@,
            replies_for(list@, answers),
            run[0].width,
            run[0].height,
            list@.len() as int,
        ),
        strictly_increasing(run.last().found@),
        run.last().found@.contains(modifier) <==> (admits(
            answers(modifier),
            run[0].width,
            run[0].height,
        ) && exists|i: int|
            0 <= i < list@.len() && (#[trigger] list@[i]).modifier == modifier && transferable(
                list@[i],
                true,
            )),
{
    let replies = replies_for(list@, answers);
    let (width, height) = (run[0].width, run[0].height);
    lemma_enumeration(run, list, answers, run.len() - 1);
    steps_follow_the_candidates(list@, replies, width, height, run.last().next as int);
    enumeration_is_exact(list@, replies, width, height, list@.len() as int, modifier);
    if run.last().found@.contains(modifier) {
        let i = choose|i: int|
            #![trigger list@[i]]
            0 <= i < list@.len() && list@[i].modifier == modifier && accepted(
                list@[i],
                replies[i],
                width,
                height,
            );
        assert(transferable(list@[i], true));
    }
    if admits(answers(modifier), width, height) && exists|i: int|
        0 <= i < list@.len() && (#[trigger] list@[i]).modifier == modifier && transferable(
            list@[i],
            true,
        ) {
        let i = choose|i: int|
            0 <= i < list@.len() && (#[trigger] list@[i]).modifier == modifier && transferable(
                list@[i],
                true,
            );
        assert(accepted(list@[i], replies[i], width, height));
    }
}

proof fn lemma_next_candidate(candidates: Seq<ModifierProperties>, from: int)
    requires
        0 <= from <= candidates.len(),
    ensures
        ({
            let i = next_candidate(candidates, from);
            &&& from <= i <= candidates.len()
            &&& i < candidates.len() ==> transferable(candidates[i], true)
            &&& forall|j: int| from <= j < i ==> !transferable(#[trigger] candidates[j], true)
        }),
    decreases candidates.len() - from,
{
    if from < candidates.len() && !transferable(candidates[from], true) {
        lemma_next_candidate(candidates, from + 1);
    }
}

/// Whether `i` is the first undecided candidate with an explicit single-plane layout that can be
/// copied from.
pub open spec fn is_next(n: Negotiation, list: Seq<ModifierProperties>, i: int) -> bool {
    &&& n.next <= i < list.len()
    &&& transferable(list[i], true)
    &&& forall|j: int| n.next <= j < i ==> !transferable(#[trigger] list[j], true)
}

/// An enumeration asks for the driver's list first, and then about the first candidate that is
/// undecided and can be copied from, in the format of the enumeration. Nothing is asked exactly if
/// there is no such candidate left.
pub proof fn questions_are_about_the_next_candidate(n: Negotiation)
    requires
        n.wf(),
    ensures
        match n.candidates {
            None => question_of(n) == (Question::List { format: n.format }),
            Some(list) => {
                &&& question_of(n) == Question::Nothing <==> forall|j: int|
                    n.next <= j < list@.len() ==> !transferable(#[trigger] list@[j], true)
                &&& forall|i: int| #[trigger]
                    is_next(n, list@, i) ==> question_of(n) == (Question::Import {
                        format: n.format,
                        modifier: list@[i].modifier,
                    })
                &&& question_of(n) != Question::Nothing ==> exists|i: int| #[trigger]
                    is_next(n, list@, i)
            },
        },
{
    if let Some(list) = n.candidates {
        lemma_next_candidate(list@, n.next as int);
        let i = next_candidate(list@, n.next as int);
        if i < list@.len() {
            assert(is_next(n, list@, i));
            assert forall|k: int| #[trigger] is_next(n, list@, k) implies k == i by {
                if k < i {
                    assert(!transferable(list@[k], true));
                } else if i < k {
                    assert(!transferable(list@[i], true));
                }
            }
        }
    }
}

/// A decision is about the candidate that was asked about, and only about it: its modifier joins
/// what was found exactly if the answer admits it, and the candidates behind it are next.
pub proof fn decisions_are_about_the_question(
    before: Negotiation,
    reply: Result<ImportReply, VkResult>,
    after: Negotiation,
    i: int,
    modifier: u64,
)
    requires
        before.wf(),
        before.candidates is Some,
        is_next(before, (before.candidates->0)@, i),
        decided(before, reply, after),
    ensures
        after.next == i + 1,
        after.candidates == before.candidates,
        after.fourcc == before.fourcc,
        after.width == before.width,
        after.height == before.height,
        after.format == before.format,
        after.found@.contains(modifier) <==> before.found@.contains(modifier) || (modifier == (
        before.candidates->0)@[i].modifier && admits(reply, before.width, before.height)),
        strictly_increasing(after.found@),
{
    let list = before.candidates->0;
    lemma_next_candidate(list@, before.next as int);
    let k = next_candidate(list@, before.next as int);
    if k < i {
        assert(!transferable(list@[k], true));
    } else if i < k {
        assert(!transferable(list@[i], true));
    }
    lemma_insert_sorted(before.found@, list@[i].modifier);
}

/// An answer admits a source exactly if its memory can be imported as a dma-buf, and an image of
/// the extent with one level, layer and sample is within the limits.
pub proof fn admitting_answers_fit(reply: Result<ImportReply, VkResult>, width: u32, height: u32)
    ensures
        admits(reply, width, height) <==> {
            &&& reply matches Ok(found)
            &&& found.memory_features & 4 == 4
            &&& found.handle_types & 0x200 == 0x200
            &&& 0 < width <= found.limits.max_width
            &&& 0 < height <= found.limits.max_height
            &&& found.limits.max_depth >= 1
            &&& found.limits.max_mip_levels >= 1
            &&& found.limits.max_array_layers >= 1
            &&& found.limits.sample_counts & 1 == 1
        },
{
}

/// Sorted lists are strictly increasing from each element to the next.
pub proof fn sorted_lists_hold_every_value_once(list: Seq<u64>, i: int, j: int)
    requires
        strictly_increasing(list),
        0 <= i < list.len(),
        0 <= j < list.len(),
    ensures
        list[i] == list[j] <==> i == j,
        list[i] < list[j] <==> i < j,
{
}

} // verus!
