//! The filter abstraction and the chain that runs filters one after another.

use crate::ident::{fresh_id, is_uuid_text};
use vstd::prelude::*;
use vstd::string::StringExecFns;

verus! {

/// What a chain knows of a filter without running it.
#[derive(Debug)]
pub struct FilterMetadata {
    /// Stable identifier, unique among the filters that an application makes.
    pub id: String,
    pub name: String,
    pub enabled: bool,
    /// A bypassed filter is skipped by the chain: its input passes unchanged.
    pub bypass: bool,
}

impl FilterMetadata {
    /// The metadata of a new filter called `name` with the identifier `id`:
    /// enabled and not bypassed.
    pub fn new(id: String, name: String) -> (metadata: Self)
        ensures
            metadata == (FilterMetadata { id, name, enabled: true, bypass: false }),
    {
        FilterMetadata { id, name, enabled: true, bypass: false }
    }

    /// The metadata of a new filter called `name`: a fresh identifier, enabled
    /// and not bypassed.
    pub fn with_fresh_id(name: String) -> (metadata: Self)
        ensures
            metadata.name == name,
            metadata.enabled,
            !metadata.bypass,
            is_uuid_text(metadata.id@),
    {
        Self::new(fresh_id(), name)
    }
}

impl Clone for FilterMetadata {
    fn clone(&self) -> (copy: Self)
        ensures
            copy == *self,
    {
        FilterMetadata {
            id: self.id.clone(),
            name: self.name.clone(),
            enabled: self.enabled,
            bypass: self.bypass,
        }
    }
}

/// A processor of blocks of samples, with private state.
///
/// What a filter answers, and what it is afterwards, are functions of its
/// state and of the input: `response` and `after` name them. `cleared` names
/// the filter with its state cleared, and `spec_metadata` the metadata. The
/// chain is proved for every filter that keeps the contracts below. A filter
/// written in verified code says what the four names stand for. One written in
/// ordinary Rust cannot, and leaves them as they are here: of a filter that it
/// does not know, the verifier takes them to be unknown functions, so the
/// bodies below are never relied on.
pub trait Filter {
    /// The type of a sample.
    type Sample: Copy;

    /// The block that the filter, in its present state, answers `input` with.
    closed spec fn response(&self, input: Seq<Self::Sample>) -> Seq<Self::Sample> {
        arbitrary()
    }

    /// The filter after it has answered `input`.
    closed spec fn after(&self, input: Seq<Self::Sample>) -> Self where Self: Sized {
        arbitrary()
    }

    /// The filter with its state cleared.
    closed spec fn cleared(&self) -> Self where Self: Sized {
        arbitrary()
    }

    /// The metadata of the filter.
    closed spec fn spec_metadata(&self) -> FilterMetadata {
        arbitrary()
    }

    /// Writes the answer to `input` into `output`, one sample for each sample
    /// of input, and moves the state on. The metadata stays.
    fn process(&mut self, input: &[Self::Sample], output: &mut [Self::Sample]) where Self: Sized
        requires
            old(output)@.len() == input@.len(),
        ensures
            final(output)@ == old(self).response(input@),
            final(output)@.len() == input@.len(),
            *final(self) == old(self).after(input@),
            final(self).spec_metadata() == old(self).spec_metadata(),
    ;

    fn metadata(&self) -> (metadata: &FilterMetadata)
        ensures
            *metadata == self.spec_metadata(),
    ;

    /// Sets the bypass flag and nothing else.
    fn set_bypass(&mut self, bypass: bool)
        ensures
            final(self).spec_metadata() == (FilterMetadata {
                bypass,
                ..old(self).spec_metadata()
            }),
            forall|input: Seq<Self::Sample>|
                final(self).response(input) == old(self).response(input),
    ;

    fn is_bypassed(&self) -> (bypassed: bool)
        ensures
            bypassed == self.spec_metadata().bypass,
    ;

    /// Clears the state. The metadata stays.
    fn reset(&mut self) where Self: Sized
        ensures
            *final(self) == old(self).cleared(),
            final(self).spec_metadata() == old(self).spec_metadata(),
    ;
}

/// What the filters make of `input` when each feeds the next, in order, and
/// the bypassed ones pass their input on unchanged.
pub open spec fn chain_response<F: Filter>(filters: Seq<F>, input: Seq<F::Sample>) -> Seq<F::Sample>
    decreases filters.len(),
{
    if filters.len() == 0 {
        input
    } else {
        let before = chain_response(filters.drop_last(), input);
        if filters.last().spec_metadata().bypass {
            before
        } else {
            filters.last().response(before)
        }
    }
}

/// The filters after the chain has run `input` through them: a bypassed
/// filter is as it was, and every other has answered what came out of the
/// filters before it.
pub open spec fn chain_after<F: Filter>(filters: Seq<F>, input: Seq<F::Sample>) -> Seq<F> {
    Seq::new(
        filters.len(),
        |k: int|
            if filters[k].spec_metadata().bypass {
                filters[k]
            } else {
                filters[k].after(chain_response(filters.take(k), input))
            },
    )
}

/// The filters with their states cleared.
pub open spec fn chain_cleared<F: Filter>(filters: Seq<F>) -> Seq<F> {
    Seq::new(filters.len(), |k: int| filters[k].cleared())
}

/// The index of the filter that `id` names: of the last one added, where
/// several carry the same identifier.
pub open spec fn position_of<F: Filter>(filters: Seq<F>, id: Seq<char>) -> Option<
    int,
>
    decreases filters.len(),
{
    if filters.len() == 0 {
        None
    } else if filters.last().spec_metadata().id@ == id {
        Some(filters.len() - 1)
    } else {
        position_of(filters.drop_last(), id)
    }
}

/// No two filters carry the same identifier.
pub open spec fn ids_unique<F: Filter>(filters: Seq<F>) -> bool {
    forall|i: int, j: int|
        0 <= i < j < filters.len() ==> filters[i].spec_metadata().id@
            != filters[j].spec_metadata().id@
}

/// An ordered chain of at most `max_filters` filters.
pub struct FilterChain<F: Filter> {
    filters: Vec<F>,
    max_filters: usize,
}

impl<F: Filter> View for FilterChain<F> {
    type V = Seq<F>;

    closed spec fn view(&self) -> Seq<F> {
        self.filters@
    }
}

impl<F: Filter> FilterChain<F> {
    /// The most filters that the chain holds.
    pub closed spec fn spec_max_filters(&self) -> nat {
        self.max_filters as nat
    }

    /// The chain holds no more filters than its cap, which is positive.
    pub open spec fn wf(&self) -> bool {
        &&& self.spec_max_filters() > 0
        &&& self@.len() <= self.spec_max_filters()
    }

    /// An empty chain of at most 32 filters.
    pub fn new() -> (chain: Self)
        ensures
            chain.wf(),
            chain@.len() == 0,
            chain.spec_max_filters() == 32,
    {
        Self::with_capacity(32)
    }

    /// An empty chain of at most `max_filters` filters.
    pub fn with_capacity(max_filters: usize) -> (chain: Self)
        requires
            max_filters > 0,
        ensures
            chain.wf(),
            chain@.len() == 0,
            chain.spec_max_filters() == max_filters,
    {
        FilterChain { filters: Vec::new(), max_filters }
    }

    pub fn len(&self) -> (n: usize)
        ensures
            n == self@.len(),
    {
        self.filters.len()
    }

    pub fn is_empty(&self) -> (empty: bool)
        ensures
            empty == (self@.len() == 0),
    {
        self.filters.len() == 0
    }

    /// Removes every filter.
    pub fn clear(&mut self)
        ensures
            final(self)@.len() == 0,
            final(self).spec_max_filters() == old(self).spec_max_filters(),
    {
        self.filters.clear();
    }

    /// Appends `filter` and returns its identifier. A chain that is full
    /// first drops its oldest filter.
    pub fn add_filter(&mut self, filter: F) -> (id: String)
        requires
            old(self).wf(),
        ensures
            final(self).wf(),
            final(self).spec_max_filters() == old(self).spec_max_filters(),
            final(self)@ == (if old(self)@.len() >= old(self).spec_max_filters() {
                old(self)@.drop_first()
            } else {
                old(self)@
            }).push(filter),
            id@ == filter.spec_metadata().id@,
    {
        let id = filter.metadata().id.clone();
        if self.filters.len() >= self.max_filters {
            self.filters.remove(0);
            assert(self.filters@ =~= old(self)@.drop_first());
        }
        self.filters.push(filter);
        id
    }

    /// The index of the filter that `filter_id` names.
    fn find(&self, filter_id: &str) -> (found: Option<usize>)
        ensures
            match found {
                Some(i) => position_of(self@, filter_id@) == Some(i as int) && i < self@.len(),
                None => position_of(self@, filter_id@) is None,
            },
    {
        let key = String::from_str(filter_id);
        let mut i: usize = self.filters.len();
        assert(self@.take(i as int) =~= self@);
        while i > 0
            invariant
                i <= self@.len(),
                key@ == filter_id@,
                position_of(self@, filter_id@) == position_of(self@.take(i as int), filter_id@),
            decreases i,
        {
            let ghost part = self@.take(i as int);
            assert(part.drop_last() =~= self@.take(i - 1));
            if self.filters[i - 1].metadata().id == key {
                return Some(i - 1);
            }
            i -= 1;
        }
        None
    }

    /// Removes the filter that `filter_id` names. The filters behind it move up.
    pub fn remove_filter(&mut self, filter_id: &str) -> (r: Result<(), String>)
        requires
            old(self).wf(),
        ensures
            final(self).wf(),
            final(self).spec_max_filters() == old(self).spec_max_filters(),
            match position_of(old(self)@, filter_id@) {
                Some(i) => r is Ok && final(self)@ == old(self)@.remove(i),
                None => final(self)@ == old(self)@ && (r matches Err(message) && message@
                    == "Filter not found: "@ + filter_id@),
            },
    {
        match self.find(filter_id) {
            Some(index) => {
                self.filters.remove(index);
                Ok(())
            },
            None => Err(String::from_str("Filter not found: ").concat(filter_id)),
        }
    }

    /// The filter that `filter_id` names.
    pub fn get_filter(&self, filter_id: &str) -> (r: Option<&F>)
        ensures
            match position_of(self@, filter_id@) {
                Some(i) => r matches Some(filter) && *filter == self@[i],
                None => r is None,
            },
    {
        match self.find(filter_id) {
            Some(index) => Some(&self.filters[index]),
            None => None,
        }
    }

    /// The filter that `filter_id` names, for changing it in place. The other
    /// filters and the order stay.
    pub fn get_filter_mut(&mut self, filter_id: &str) -> (r: Option<&mut F>)
        ensures
            final(self).spec_max_filters() == old(self).spec_max_filters(),
            match position_of(old(self)@, filter_id@) {
                Some(i) => r is Some && *r.unwrap() == old(self)@[i] && final(self)@ == old(
                    self,
                )@.update(i, *final(r.unwrap())),
                None => r is None && final(self)@ == old(self)@,
            },
    {
        match self.find(filter_id) {
            Some(index) => Some(&mut self.filters[index]),
            None => None,
        }
    }

    /// Sets the bypass flag of the filter that `filter_id` names. Nothing
    /// else changes: not the order, not the other filters, not what the
    /// filter answers once it is active again.
    pub fn set_filter_bypass(&mut self, filter_id: &str, bypass: bool) -> (r: Result<(), String>)
        requires
            old(self).wf(),
        ensures
            final(self).wf(),
            final(self).spec_max_filters() == old(self).spec_max_filters(),
            final(self)@.len() == old(self)@.len(),
            match position_of(old(self)@, filter_id@) {
                Some(i) => {
                    &&& r is Ok
                    &&& final(self)@[i].spec_metadata() == (FilterMetadata {
                        bypass,
                        ..old(self)@[i].spec_metadata()
                    })
                    &&& forall|input: Seq<F::Sample>|
                        final(self)@[i].response(input) == old(self)@[i].response(input)
                    &&& forall|j: int|
                        0 <= j < old(self)@.len() && j != i ==> final(self)@[j] == old(self)@[j]
                },
                None => final(self)@ == old(self)@ && (r matches Err(message) && message@
                    == "Filter not found: "@ + filter_id@),
            },
    {
        match self.find(filter_id) {
            Some(index) => {
                self.filters[index].set_bypass(bypass);
                Ok(())
            },
            None => Err(String::from_str("Filter not found: ").concat(filter_id)),
        }
    }

    /// Runs `input` through the filters that are not bypassed, in order, and
    /// writes what comes out of the last one to `output`.
    ///
    /// The two scratch blocks carry the samples from one filter to the next
    /// in turn, so that the chain allocates nothing; what they hold
    /// afterwards is of no use. Every filter that ran has moved on, and every
    /// filter keeps its metadata.
    pub fn process(
        &mut self,
        input: &[F::Sample],
        output: &mut [F::Sample],
        scratch_a: &mut [F::Sample],
        scratch_b: &mut [F::Sample],
    )
        requires
            old(output)@.len() == input@.len(),
            old(scratch_a)@.len() == input@.len(),
            old(scratch_b)@.len() == input@.len(),
        ensures
            final(output)@ == chain_response(old(self)@, input@),
            final(output)@.len() == input@.len(),
            final(self)@ == chain_after(old(self)@, input@),
            final(scratch_a)@.len() == input@.len(),
            final(scratch_b)@.len() == input@.len(),
            final(self).spec_max_filters() == old(self).spec_max_filters(),
            final(self)@.len() == old(self)@.len(),
            forall|k: int|
                0 <= k < old(self)@.len() ==> (#[trigger] final(self)@[k]).spec_metadata() == old(
                    self,
                )@[k].spec_metadata(),
    {
        let n = input.len();
        let mut k: usize = 0;
        while k < n
            invariant
                k <= n == input@.len() == scratch_a@.len(),
                forall|m: int| 0 <= m < k ==> scratch_a@[m] == input@[m],
            decreases n - k,
        {
            scratch_a[k] = input[k];
            k += 1;
        }
        assert(scratch_a@ =~= input@);
        let mut source_is_a = true;
        let count = self.filters.len();
        let mut i: usize = 0;
        assert(old(self)@.take(0) =~= Seq::<F>::empty());
        while i < count
            invariant
                i <= count == self.filters@.len() == old(self)@.len(),
                self.max_filters == old(self).max_filters,
                scratch_a@.len() == input@.len(),
                scratch_b@.len() == input@.len(),
                (if source_is_a {
                    scratch_a@
                } else {
                    scratch_b@
                }) == chain_response(old(self)@.take(i as int), input@),
                forall|k: int|
                    0 <= k < count ==> (#[trigger] self.filters@[k]).spec_metadata() == old(
                        self,
                    )@[k].spec_metadata(),
                forall|k: int| i <= k < count ==> self.filters@[k] == old(self)@[k],
                forall|k: int|
                    0 <= k < i ==> self.filters@[k] == chain_after(old(self)@, input@)[k],
            decreases count - i,
        {
            proof {
                let upto = old(self)@.take(i + 1);
                assert(upto.drop_last() =~= old(self)@.take(i as int));
                assert(upto.last() == old(self)@[i as int]);
            }
            if !self.filters[i].is_bypassed() {
                if source_is_a {
                    self.filters[i].process(scratch_a, scratch_b);
                } else {
                    self.filters[i].process(scratch_b, scratch_a);
                }
                source_is_a = !source_is_a;
            }
            i += 1;
        }
        assert(old(self)@.take(count as int) =~= old(self)@);
        assert(self.filters@ =~= chain_after(old(self)@, input@));
        let mut k: usize = 0;
        while k < n
            invariant
                k <= n == input@.len() == output@.len(),
                scratch_a@.len() == n,
                scratch_b@.len() == n,
                forall|m: int|
                    0 <= m < k ==> output@[m] == (if source_is_a {
                        scratch_a@
                    } else {
                        scratch_b@
                    })[m],
            decreases n - k,
        {
            output[k] = if source_is_a {
                scratch_a[k]
            } else {
                scratch_b[k]
            };
            k += 1;
        }
        assert(output@ =~= if source_is_a {
            scratch_a@
        } else {
            scratch_b@
        });
    }

    /// The metadata of the filters, in chain order.
    pub fn list_filters(&self) -> (list: Vec<FilterMetadata>)
        ensures
            list@.len() == self@.len(),
            forall|i: int| 0 <= i < self@.len() ==> list@[i] == self@[i].spec_metadata(),
    {
        let mut list: Vec<FilterMetadata> = Vec::new();
        let mut i: usize = 0;
        while i < self.filters.len()
            invariant
                i <= self.filters@.len(),
                list@.len() == i,
                forall|k: int| 0 <= k < i ==> list@[k] == self.filters@[k].spec_metadata(),
            decreases self.filters@.len() - i,
        {
            list.push(self.filters[i].metadata().clone());
            i += 1;
        }
        list
    }

    /// Clears the state of every filter. Order and metadata stay.
    pub fn reset_all(&mut self)
        ensures
            final(self).spec_max_filters() == old(self).spec_max_filters(),
            final(self)@ == chain_cleared(old(self)@),
            final(self)@.len() == old(self)@.len(),
            forall|k: int|
                0 <= k < old(self)@.len() ==> (#[trigger] final(self)@[k]).spec_metadata() == old(
                    self,
                )@[k].spec_metadata(),
    {
        let count = self.filters.len();
        let mut i: usize = 0;
        while i < count
            invariant
                i <= count == self.filters@.len() == old(self)@.len(),
                self.max_filters == old(self).max_filters,
                forall|k: int|
                    0 <= k < count ==> (#[trigger] self.filters@[k]).spec_metadata() == old(
                        self,
                    )@[k].spec_metadata(),
                forall|k: int| i <= k < count ==> self.filters@[k] == old(self)@[k],
                forall|k: int| 0 <= k < i ==> self.filters@[k] == old(self)@[k].cleared(),
            decreases count - i,
        {
            self.filters[i].reset();
            i += 1;
        }
        assert(self.filters@ =~= chain_cleared(old(self)@));
    }
}

/// A chain without filters hands its input on unchanged.
pub proof fn lemma_empty_chain_is_identity<F: Filter>(input: Seq<F::Sample>)
    ensures
        chain_response(Seq::<F>::empty(), input) == input,
{
}

/// A chain whose filters are all bypassed hands its input on unchanged; so
/// does, in particular, a chain of one bypassed filter.
pub proof fn lemma_bypassed_chain_is_identity<F: Filter>(
    filters: Seq<F>,
    input: Seq<F::Sample>,
)
    requires
        forall|i: int| 0 <= i < filters.len() ==> filters[i].spec_metadata().bypass,
    ensures
        chain_response(filters, input) == input,
    decreases filters.len(),
{
    if filters.len() > 0 {
        lemma_bypassed_chain_is_identity(filters.drop_last(), input);
    }
}

/// The response of a chain of two active filters is the second filter's
/// answer to the first filter's answer.
pub proof fn lemma_chain_of_two<F: Filter>(
    first: F,
    second: F,
    input: Seq<F::Sample>,
)
    requires
        !first.spec_metadata().bypass,
        !second.spec_metadata().bypass,
    ensures
        chain_response(seq![first, second], input) == second.response(first.response(input)),
{
    let both = seq![first, second];
    let one = seq![first];
    assert(both.drop_last() =~= one);
    assert(one.drop_last() =~= Seq::<F>::empty());
    assert(chain_response(one.drop_last(), input) == input);
    assert(chain_response(one, input) == first.response(input));
}

/// Two active filters whose answers commute on `input` can change places:
/// the chain answers the same in either order.
pub proof fn lemma_commuting_filters_swap<F: Filter>(
    first: F,
    second: F,
    input: Seq<F::Sample>,
)
    requires
        !first.spec_metadata().bypass,
        !second.spec_metadata().bypass,
        second.response(first.response(input)) == first.response(second.response(input)),
    ensures
        chain_response(seq![first, second], input) == chain_response(seq![second, first], input),
{
    lemma_chain_of_two(first, second, input);
    lemma_chain_of_two(second, first, input);
}

/// Identifiers stay unique when a filter with a new identifier is added and
/// when a filter is removed.
pub proof fn lemma_ids_stay_unique<F: Filter>(
    filters: Seq<F>,
    added: F,
    removed: int,
)
    requires
        ids_unique(filters),
        position_of(filters, added.spec_metadata().id@) is None,
        0 <= removed < filters.len(),
    ensures
        ids_unique(filters.push(added)),
        ids_unique(filters.drop_first().push(added)),
        ids_unique(filters.remove(removed)),
{
    lemma_position_none(filters, added.spec_metadata().id@);
    lemma_position_none(filters.drop_first(), added.spec_metadata().id@);
}

/// `position_of` finds nothing exactly when no filter carries the identifier.
pub proof fn lemma_position_none<F: Filter>(filters: Seq<F>, id: Seq<char>)
    ensures
        position_of(filters, id) is None <==> forall|i: int|
            0 <= i < filters.len() ==> filters[i].spec_metadata().id@ != id,
        position_of(filters, id) matches Some(i) ==> 0 <= i < filters.len()
            && filters[i].spec_metadata().id@ == id && forall|j: int|
            i < j < filters.len() ==> filters[j].spec_metadata().id@ != id,
    decreases filters.len(),
{
    if filters.len() > 0 {
        lemma_position_none(filters.drop_last(), id);
        let front = filters.drop_last();
        assert(forall|i: int| 0 <= i < front.len() ==> front[i] == filters[i]);
    }
}

} // verus!

