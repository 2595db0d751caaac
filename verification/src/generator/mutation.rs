//! Mutation during generation: a value is handed to the strategies in the
//! order of their registration until one of them changes it, and after each
//! instruction every strategy may rewrite what was written.

use vstd::prelude::*;
use crate::generator::Generator;
use crate::mutators::typeconfusion::type_of_byte;
use crate::mutators::{EmissionSnapshot, Mutator};
use crate::source::{GenerationSource, SourceView};
use crate::stack::StackObjectRef;

verus! {

/// The integer after mutation by the strategies from `from` on, and the
/// source after it: the change of the first strategy that makes one.
pub open spec fn mutated_int(
    mutators: Seq<Mutator>,
    from: int,
    value: i32,
    s: SourceView,
    rate: u64,
) -> (i32, SourceView)
    decreases mutators.len() - from,
{
    if from < 0 || from >= mutators.len() {
        (value, s)
    } else {
        let r = mutators[from].int_spec(value, s, rate);
        match r.0 {
            Some(changed) => (changed, r.1),
            None => mutated_int(mutators, from + 1, value, r.1, rate),
        }
    }
}

/// As [`mutated_int`], for a long integer.
pub open spec fn mutated_long(
    mutators: Seq<Mutator>,
    from: int,
    value: i64,
    s: SourceView,
    rate: u64,
) -> (i64, SourceView)
    decreases mutators.len() - from,
{
    if from < 0 || from >= mutators.len() {
        (value, s)
    } else {
        let r = mutators[from].long_spec(value, s, rate);
        match r.0 {
            Some(changed) => (changed, r.1),
            None => mutated_long(mutators, from + 1, value, r.1, rate),
        }
    }
}

/// As [`mutated_int`], for the bit pattern of a binary64 value.
pub open spec fn mutated_float(
    mutators: Seq<Mutator>,
    from: int,
    value: u64,
    s: SourceView,
    rate: u64,
) -> (u64, SourceView)
    decreases mutators.len() - from,
{
    if from < 0 || from >= mutators.len() {
        (value, s)
    } else {
        let r = mutators[from].float_spec(value, s, rate);
        match r.0 {
            Some(changed) => (changed, r.1),
            None => mutated_float(mutators, from + 1, value, r.1, rate),
        }
    }
}

/// As [`mutated_int`], for a text.
pub open spec fn mutated_string(
    mutators: Seq<Mutator>,
    from: int,
    value: Seq<u8>,
    s: SourceView,
    rate: u64,
) -> (Seq<u8>, SourceView)
    decreases mutators.len() - from,
{
    if from < 0 || from >= mutators.len() {
        (value, s)
    } else {
        let r = mutators[from].string_spec(value, s, rate);
        match r.0 {
            Some(changed) => (changed, r.1),
            None => mutated_string(mutators, from + 1, value, r.1, rate),
        }
    }
}

/// As [`mutated_int`], for a byte string.
pub open spec fn mutated_bytes(
    mutators: Seq<Mutator>,
    from: int,
    value: Seq<u8>,
    s: SourceView,
    rate: u64,
) -> (Seq<u8>, SourceView)
    decreases mutators.len() - from,
{
    if from < 0 || from >= mutators.len() {
        (value, s)
    } else {
        let r = mutators[from].bytes_spec(value, s, rate);
        match r.0 {
            Some(changed) => (changed, r.1),
            None => mutated_bytes(mutators, from + 1, value, r.1, rate),
        }
    }
}

/// As [`mutated_int`], for an index of the reference table.
pub open spec fn mutated_memo_index(
    mutators: Seq<Mutator>,
    from: int,
    index: usize,
    s: SourceView,
    rate: u64,
) -> (usize, SourceView)
    decreases mutators.len() - from,
{
    if from < 0 || from >= mutators.len() {
        (index, s)
    } else {
        let r = mutators[from].memo_index_spec(index, s, rate);
        match r.0 {
            Some(changed) => (changed, r.1),
            None => mutated_memo_index(mutators, from + 1, index, r.1, rate),
        }
    }
}

/// The output after every strategy from `from` on had its turn at the
/// instruction that began at `output_len` and wrote `delta`, and the source
/// after it.
pub open spec fn post_processed(
    mutators: Seq<Mutator>,
    from: int,
    output_len: usize,
    delta: Seq<u8>,
    output: Seq<u8>,
    s: SourceView,
    rate: u64,
) -> (Seq<u8>, SourceView)
    decreases mutators.len() - from,
{
    if from < 0 || from >= mutators.len() {
        (output, s)
    } else {
        let r = mutators[from].post_process_spec(output_len, delta, output, s, rate);
        post_processed(mutators, from + 1, output_len, delta, r.1, r.2, rate)
    }
}

/// Where an instruction wrote nothing, no strategy rewrites anything.
pub proof fn lemma_nothing_to_rewrite(
    mutators: Seq<Mutator>,
    from: int,
    output_len: usize,
    output: Seq<u8>,
    s: SourceView,
    rate: u64,
)
    ensures
        post_processed(mutators, from, output_len, Seq::<u8>::empty(), output, s, rate).0
            == output,
    decreases mutators.len() - from,
{
    if 0 <= from < mutators.len() {
        let r = mutators[from].post_process_spec(output_len, Seq::<u8>::empty(), output, s, rate);
        lemma_nothing_to_rewrite(mutators, from + 1, output_len, output, r.2, rate);
    }
}

/// `after` keeps the first `from` bytes of `before`, and where `before`
/// goes on, `after` goes on too: as `before` does, or with an instruction
/// that pushes a value.
pub open spec fn kept(before: Seq<u8>, after: Seq<u8>, from: int) -> bool {
    &&& 0 <= from <= before.len()
    &&& from <= after.len()
    &&& before.len() > from ==> after.len() > from
    &&& after.take(from) == before.take(from)
    &&& after.len() > from ==> (before.len() > from && after[from] == before[from]) || type_of_byte(
        after[from],
    ) is Some
}

/// Without strategies nothing is mutated and nothing is drawn.
pub proof fn lemma_no_mutators(
    value_int: i32,
    value_long: i64,
    value_float: u64,
    text: Seq<u8>,
    index: usize,
    output_len: usize,
    output: Seq<u8>,
    s: SourceView,
    rate: u64,
)
    ensures
        mutated_int(Seq::empty(), 0, value_int, s, rate) == (value_int, s),
        mutated_long(Seq::empty(), 0, value_long, s, rate) == (value_long, s),
        mutated_float(Seq::empty(), 0, value_float, s, rate) == (value_float, s),
        mutated_string(Seq::empty(), 0, text, s, rate) == (text, s),
        mutated_bytes(Seq::empty(), 0, text, s, rate) == (text, s),
        mutated_memo_index(Seq::empty(), 0, index, s, rate) == (index, s),
        post_processed(Seq::empty(), 0, output_len, text, output, s, rate) == (output, s),
{
}

impl Generator {
    /// The integer after mutation.
    pub fn mutate_int(&self, value: i32, source: &mut GenerationSource) -> (r: i32)
        ensures
            r == mutated_int(self.mutators@, 0, value, old(source)@, self.mutation_rate).0,
            final(source)@ == mutated_int(
                self.mutators@,
                0,
                value,
                old(source)@,
                self.mutation_rate,
            ).1,
    {
        let mut i: usize = 0;
        while i < self.mutators.len()
            invariant
                i <= self.mutators.len(),
                mutated_int(self.mutators@, 0, value, old(source)@, self.mutation_rate)
                    == mutated_int(self.mutators@, i as int, value, source@, self.mutation_rate),
            decreases self.mutators.len() - i,
        {
            match self.mutators[i].mutate_int(value, source, self.mutation_rate) {
                Some(mutated) => {
                    return mutated;
                },
                None => {},
            }
            i = i + 1;
        }
        value
    }

    /// The long integer after mutation.
    pub fn mutate_long(&self, value: i64, source: &mut GenerationSource) -> (r: i64)
        ensures
            r == mutated_long(self.mutators@, 0, value, old(source)@, self.mutation_rate).0,
            final(source)@ == mutated_long(
                self.mutators@,
                0,
                value,
                old(source)@,
                self.mutation_rate,
            ).1,
    {
        let mut i: usize = 0;
        while i < self.mutators.len()
            invariant
                i <= self.mutators.len(),
                mutated_long(self.mutators@, 0, value, old(source)@, self.mutation_rate)
                    == mutated_long(self.mutators@, i as int, value, source@, self.mutation_rate),
            decreases self.mutators.len() - i,
        {
            match self.mutators[i].mutate_long(value, source, self.mutation_rate) {
                Some(mutated) => {
                    return mutated;
                },
                None => {},
            }
            i = i + 1;
        }
        value
    }

    /// The binary64 value after mutation, as its bit pattern.
    pub fn mutate_float(&self, value: u64, source: &mut GenerationSource) -> (r: u64)
        ensures
            r == mutated_float(self.mutators@, 0, value, old(source)@, self.mutation_rate).0,
            final(source)@ == mutated_float(
                self.mutators@,
                0,
                value,
                old(source)@,
                self.mutation_rate,
            ).1,
    {
        let mut i: usize = 0;
        while i < self.mutators.len()
            invariant
                i <= self.mutators.len(),
                mutated_float(self.mutators@, 0, value, old(source)@, self.mutation_rate)
                    == mutated_float(self.mutators@, i as int, value, source@, self.mutation_rate),
            decreases self.mutators.len() - i,
        {
            match self.mutators[i].mutate_float(value, source, self.mutation_rate) {
                Some(mutated) => {
                    return mutated;
                },
                None => {},
            }
            i = i + 1;
        }
        value
    }

    /// The text after mutation.
    pub fn mutate_string(&self, value: Vec<u8>, source: &mut GenerationSource) -> (r: Vec<u8>)
        ensures
            r@ == mutated_string(self.mutators@, 0, value@, old(source)@, self.mutation_rate).0,
            final(source)@ == mutated_string(
                self.mutators@,
                0,
                value@,
                old(source)@,
                self.mutation_rate,
            ).1,
    {
        let mut i: usize = 0;
        while i < self.mutators.len()
            invariant
                i <= self.mutators.len(),
                mutated_string(self.mutators@, 0, value@, old(source)@, self.mutation_rate)
                    == mutated_string(
                    self.mutators@,
                    i as int,
                    value@,
                    source@,
                    self.mutation_rate,
                ),
            decreases self.mutators.len() - i,
        {
            match self.mutators[i].mutate_string(value.clone(), source, self.mutation_rate) {
                Some(mutated) => {
                    return mutated;
                },
                None => {},
            }
            i = i + 1;
        }
        value
    }

    /// The byte string after mutation.
    pub fn mutate_bytes(&self, value: Vec<u8>, source: &mut GenerationSource) -> (r: Vec<u8>)
        ensures
            r@ == mutated_bytes(self.mutators@, 0, value@, old(source)@, self.mutation_rate).0,
            final(source)@ == mutated_bytes(
                self.mutators@,
                0,
                value@,
                old(source)@,
                self.mutation_rate,
            ).1,
    {
        let mut i: usize = 0;
        while i < self.mutators.len()
            invariant
                i <= self.mutators.len(),
                mutated_bytes(self.mutators@, 0, value@, old(source)@, self.mutation_rate)
                    == mutated_bytes(
                    self.mutators@,
                    i as int,
                    value@,
                    source@,
                    self.mutation_rate,
                ),
            decreases self.mutators.len() - i,
        {
            match self.mutators[i].mutate_bytes(value.clone(), source, self.mutation_rate) {
                Some(mutated) => {
                    return mutated;
                },
                None => {},
            }
            i = i + 1;
        }
        value
    }

    /// The index of the reference table after mutation.
    pub fn mutate_memo_index(&self, index: usize, source: &mut GenerationSource) -> (r: usize)
        ensures
            r == mutated_memo_index(self.mutators@, 0, index, old(source)@, self.mutation_rate).0,
            final(source)@ == mutated_memo_index(
                self.mutators@,
                0,
                index,
                old(source)@,
                self.mutation_rate,
            ).1,
    {
        let mut i: usize = 0;
        while i < self.mutators.len()
            invariant
                i <= self.mutators.len(),
                mutated_memo_index(self.mutators@, 0, index, old(source)@, self.mutation_rate)
                    == mutated_memo_index(
                    self.mutators@,
                    i as int,
                    index,
                    source@,
                    self.mutation_rate,
                ),
            decreases self.mutators.len() - i,
        {
            match self.mutators[i].mutate_memo_index(index, source, self.mutation_rate) {
                Some(mutated) => {
                    return mutated;
                },
                None => {},
            }
            i = i + 1;
        }
        index
    }

    /// The state of the generator before an instruction is written.
    pub fn create_snapshot(&self) -> (snapshot: EmissionSnapshot)
        ensures
            snapshot.stack_depth == self.state@.depth(),
            snapshot.output_len == self.output@.len(),
            snapshot.memo_size == self.state@.memo.len(),
            snapshot.stack_delta@.len() == 0,
            snapshot.output_delta@.len() == 0,
            snapshot.memo_delta@.len() == 0,
    {
        EmissionSnapshot {
            stack_depth: self.state.stack.len(),
            output_len: self.output.len(),
            memo_size: self.state.memo.len(),
            stack_delta: Vec::new(),
            output_delta: Vec::new(),
            memo_delta: Vec::new(),
        }
    }

    /// Completes the snapshot with what the instruction added, and gives
    /// every strategy its turn at the bytes that were written.
    pub fn post_process_emission(
        &mut self,
        snapshot: EmissionSnapshot,
        source: &mut GenerationSource,
    )
        requires
            snapshot.output_len <= old(self).output@.len(),
        ensures
            final(self).output@ == post_processed(
                old(self).mutators@,
                0,
                snapshot.output_len,
                old(self).output@.skip(snapshot.output_len as int),
                old(self).output@,
                old(source)@,
                old(self).mutation_rate,
            ).0,
            final(source)@ == post_processed(
                old(self).mutators@,
                0,
                snapshot.output_len,
                old(self).output@.skip(snapshot.output_len as int),
                old(self).output@,
                old(source)@,
                old(self).mutation_rate,
            ).1,
            kept(old(self).output@, final(self).output@, snapshot.output_len as int),
            final(self).state@ == old(self).state@,
            final(self).settings() == old(self).settings(),
    {
        let mut snapshot = snapshot;
        if self.mutators.len() == 0 {
            assert(self.output@.take(snapshot.output_len as int) =~= old(self).output@.take(
                snapshot.output_len as int,
            ));
            return ;
        }
        if self.state.stack.len() > snapshot.stack_depth {
            let mut added: Vec<StackObjectRef> = Vec::new();
            let mut k: usize = snapshot.stack_depth;
            while k < self.state.stack.len()
                invariant
                    k <= self.state.stack.inner@.len(),
                    self.state@ == old(self).state@,
                decreases self.state.stack.inner@.len() - k,
            {
                added.push(self.state.stack.inner[k]);
                k = k + 1;
            }
            snapshot.stack_delta = added;
        }
        let mut written: Vec<u8> = Vec::new();
        let mut j: usize = snapshot.output_len;
        while j < self.output.len()
            invariant
                snapshot.output_len <= j <= self.output@.len(),
                self.output@ == old(self).output@,
                written@ == self.output@.subrange(snapshot.output_len as int, j as int),
            decreases self.output@.len() - j,
        {
            written.push(self.output[j]);
            j = j + 1;
            assert(written@ =~= self.output@.subrange(snapshot.output_len as int, j as int));
        }
        assert(written@ =~= old(self).output@.skip(snapshot.output_len as int));
        snapshot.output_delta = written;
        let mut idx: usize = snapshot.memo_size;
        let mut places: Vec<usize> = Vec::new();
        while idx < self.state.memo.len()
            invariant
                self.state@ == old(self).state@,
            decreases self.state@.memo.len() - idx,
        {
            places.push(idx);
            idx = idx + 1;
        }
        snapshot.memo_delta = places;
        let mut i: usize = 0;
        let ghost start = old(self).output@;
        let ghost from = snapshot.output_len as int;
        assert(start.take(from) =~= self.output@.take(from));
        while i < self.mutators.len()
            invariant
                i <= self.mutators.len(),
                self.mutators@ == old(self).mutators@,
                self.mutation_rate == old(self).mutation_rate,
                self.state@ == old(self).state@,
                self.settings() == old(self).settings(),
                start == old(self).output@,
                from == snapshot.output_len,
                snapshot.output_delta@ == start.skip(from),
                kept(start, self.output@, from),
                post_processed(
                    self.mutators@,
                    0,
                    snapshot.output_len,
                    snapshot.output_delta@,
                    start,
                    old(source)@,
                    self.mutation_rate,
                ) == post_processed(
                    self.mutators@,
                    i as int,
                    snapshot.output_len,
                    snapshot.output_delta@,
                    self.output@,
                    source@,
                    self.mutation_rate,
                ),
            decreases self.mutators.len() - i,
        {
            let ghost before = self.output@;
            let mutator = self.mutators[i];
            let changed = mutator.post_process(
                &snapshot,
                &mut self.output,
                source,
                self.mutation_rate,
            );
            proof {
                if changed {
                    assert(self.output@.take(from) =~= start.take(from));
                }
            }
            i = i + 1;
        }
    }
}

} // verus!
