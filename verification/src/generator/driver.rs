//! The driver of a pass: header, frame, body, cleanup, terminator.

use vstd::prelude::*;
use crate::binary64::{texts, FloatText};
use crate::generator::effects::{apply, effect};
use crate::generator::markers::{lemma_step_keeps_clean, memo_clean};
use crate::generator::validation::{legal, lemma_legal_among};
use crate::generator::emission::{
    appended, emission_processed, lemma_appended_twice, lemma_emit_appends,
    proto_emission,
};
use crate::generator::validation::{chosen, lemma_some_opcode_is_valid, valid_opcodes};
use crate::generator::{Config, Generator, Machine};
use crate::opcodes::OpcodeKind;
use crate::protocol::Version;
use crate::source::{chacha_key, EntropySource, GenerationSource, SourceView};
use crate::stack::{lemma_mark_below, StackView};
use crate::state::StateView;
use crate::wire::{le_bytes, push_le};

verus! {

/// The most fixed-arity tuples that the cleanup writes to bring the stack
/// down to one item.
pub const CLEANUP_BUDGET: usize = 10000;

/// Why a pass gave no output.
#[derive(Debug, Clone, Copy, PartialEq, Eq, Structural)]
pub enum GenerateError {
    /// No seed was set, and the operating system gave no entropy for one.
    EntropyUnavailable,
}

/// `n` zero bytes.
pub open spec fn zeros(n: nat) -> Seq<u8> {
    Seq::new(n, |i: int| 0u8)
}

/// `output` with the frame instruction in the nine bytes from `pos` on:
/// the frame's byte, and in eight bytes, least significant first, the
/// number of bytes that follow them.
pub open spec fn framed(output: Seq<u8>, pos: int) -> Seq<u8> {
    output.take(pos) + seq![0x95u8] + le_bytes((output.len() - pos - 9) as nat, 8) + output.skip(
        pos + 9,
    )
}

/// Whether `output` holds a frame at `pos` whose length field says how
/// many bytes follow it.
pub open spec fn well_framed(output: Seq<u8>, pos: int) -> bool {
    &&& 0 <= pos
    &&& output.len() >= pos + 9
    &&& output[pos] == 0x95u8
    &&& output.subrange(pos + 1, pos + 9) == le_bytes((output.len() - pos - 9) as nat, 8)
}

/// Whether the pass is to be framed, and the source after the decision: a
/// drawn choice from the fifth protocol on, else no and nothing drawn.
pub open spec fn frame_chosen(m: Machine, s: SourceView) -> (bool, SourceView) {
    if m.state.version.ordinal() >= 4 {
        s.draw_bool()
    } else {
        (false, s)
    }
}

/// The number of numbers from `min` to `max`, both counted, as far as a
/// machine can count them: one less for the range of all numbers.
pub open spec fn count_between(min: usize, max: usize) -> usize {
    if max - min == usize::MAX {
        usize::MAX
    } else {
        (max - min + 1) as usize
    }
}

/// The number of instructions of the body, and the source after the
/// decision: the smallest number where the largest is not above it, else a
/// drawn number from the smallest to the largest.
pub open spec fn target_count(config: Config, s: SourceView) -> (usize, SourceView) {
    if config.max_opcodes > config.min_opcodes {
        let d = s.draw_index(count_between(config.min_opcodes, config.max_opcodes));
        ((config.min_opcodes + d.0) as usize, d.1)
    } else {
        (config.min_opcodes, s)
    }
}

/// The machine and the source after `steps` instructions of the body.
/// Each is chosen among the legal ones, written, simulated and left to the
/// strategies; `text` gives the decimal text of the value of a text float.
pub open spec fn body_after(
    config: Config,
    m: Machine,
    s: SourceView,
    steps: nat,
    text: spec_fn(u64) -> Seq<u8>,
) -> (Machine, SourceView)
    decreases steps,
{
    if steps == 0 {
        (m, s)
    } else {
        let before = body_after(config, m, s, (steps - 1) as nat, text);
        let valid = valid_opcodes(config, before.0.state);
        if valid.len() == 0 {
            before
        } else {
            let pick = chosen(valid, before.1);
            emission_processed(config, before.0, pick.1, pick.0, text)
        }
    }
}

/// The machine after a tuple was made of each group, topmost first, until
/// the stack holds no marker.
pub open spec fn marks_removed(m: Machine, budget: nat) -> Machine
    decreases budget,
{
    if budget > 0 && m.state.stack.has_mark() {
        marks_removed(m.emit(OpcodeKind::Tuple, Seq::<u8>::empty(), None), (budget - 1) as nat)
    } else {
        m
    }
}

/// The machine after tuples of three, or of two where the stack holds no
/// more, were made of the top items until one item is left, or `budget`
/// tuples were made.
pub open spec fn paired(m: Machine, budget: nat) -> Machine
    decreases budget,
{
    if m.state.depth() > 1 && budget > 0 {
        if m.state.depth() >= 3 {
            paired(m.emit(OpcodeKind::Tuple3, Seq::<u8>::empty(), None), (budget - 1) as nat)
        } else {
            paired(m.emit(OpcodeKind::Tuple2, Seq::<u8>::empty(), None), (budget - 1) as nat)
        }
    } else {
        m
    }
}

/// The machine with the null value pushed if its stack is empty.
pub open spec fn filled(m: Machine) -> Machine {
    if m.state.depth() == 0 {
        m.emit(OpcodeKind::Null, Seq::<u8>::empty(), None)
    } else {
        m
    }
}

/// The machine ready for the terminator: the markers are removed, the
/// items are brought down to one, an empty stack gets the null value, and
/// a marker that is left on top is taken off without an instruction.
pub open spec fn cleaned(m: Machine) -> Machine {
    let unmarked = marks_removed(m, (m.state.stack.mark_top() + 1) as nat);
    let single = filled(paired(unmarked, CLEANUP_BUDGET as nat));
    if single.state.depth() > 0 && single.state.stack.at_depth(0) is Mark {
        filled(single.with_state(single.state.drop(1)))
    } else {
        single
    }
}

/// The machine after the cleanup and the terminator, with the frame filled
/// in at `frame_position` if there is one.
pub open spec fn finished(m: Machine, frame_position: Option<usize>) -> Machine {
    let done = cleaned(m).emit(OpcodeKind::Stop, Seq::<u8>::empty(), None);
    match frame_position {
        Some(pos) => done.with_output(framed(done.output, pos as int)),
        None => done,
    }
}

/// The length of the header of the protocol `version`: two bytes from the
/// third protocol on, none before.
pub open spec fn header_len(version: Version) -> int {
    if version.ordinal() >= 2 {
        2
    } else {
        0
    }
}

/// What holds of the output of every pass for the protocol `version`:
/// behind the header it holds two bytes at least, an instruction that
/// pushes a value and the terminator, and its last byte is the terminator.
/// With a header it begins with the header's byte and the version, and
/// the header stands once: what follows it does not begin with the
/// header's byte. Without a header the output does not begin with the
/// header's byte. Where the frame's byte follows the header, it opens a
/// frame whose length field says how many bytes follow it.
pub open spec fn well_formed_output(version: Version, output: Seq<u8>) -> bool {
    let body_start = header_len(version);
    &&& output.len() >= body_start + 2
    &&& output.last() == 0x2eu8
    &&& version.ordinal() >= 2 ==> output[0] == 0x80u8 && output[1] == version.ordinal()
    &&& output[body_start] != 0x80u8
    &&& output[body_start] == 0x95u8 ==> well_framed(output, body_start)
}

/// The machine and the source after the steps of a pass, begun with the
/// machine `m`: the frame is decided, the header is written, nine bytes are
/// kept for the frame if there is to be one, the body is written, the
/// stack is cleaned up, the terminator is written, and the frame is filled
/// in.
pub open spec fn pass_from(
    config: Config,
    m: Machine,
    s: SourceView,
    text: spec_fn(u64) -> Seq<u8>,
) -> (Machine, SourceView) {
    let frame = frame_chosen(m, s);
    let headed = proto_emission(m);
    let reserved = if frame.0 {
        headed.write(zeros(9))
    } else {
        headed
    };
    let target = target_count(config, frame.1);
    let body = body_after(config, reserved, target.1, target.0 as nat, text);
    let frame_position = if frame.0 {
        Some(headed.output.len() as usize)
    } else {
        None
    };
    (finished(body.0, frame_position), body.1)
}

/// The machine and the source after a pass for the protocol `version`
/// with the source `s`. A pass begins with nothing on the stack, nothing
/// in the reference table and nothing written, whatever an earlier pass
/// left: it is a function of the configuration, the version, the source
/// and the decimal texts.
pub open spec fn pass(
    config: Config,
    version: Version,
    s: SourceView,
    text: spec_fn(u64) -> Seq<u8>,
) -> (Machine, SourceView) {
    pass_from(config, Machine::fresh(version), s, text)
}

/// Making a tuple of the topmost group lowers the topmost marker.
pub proof fn lemma_tuple_lowers_mark(s: StateView)
    requires
        s.stack.has_mark(),
        s.stack.wf(),
    ensures
        -1 <= apply(s, OpcodeKind::Tuple, None).stack.mark_top() < s.stack.mark_top(),
{
    reveal(effect);
    let top = s.stack.mark_top();
    lemma_mark_below(s.stack, s.stack.inner.len() as int);
    let after = apply(s, OpcodeKind::Tuple, None).stack;
    assert(after.inner.len() == top + 1);
    assert(after.slot(top) is Tuple);
    lemma_mark_below(after, top);
}

/// Where no slot below `n` holds a marker in `before`, and `after` holds
/// in its slots below `k` what `before` holds there, no slot below `k`
/// holds a marker in `after`.
pub proof fn lemma_no_mark_below(before: StackView, after: StackView, n: int, k: int)
    requires
        0 <= k <= n <= before.inner.len(),
        k <= after.inner.len(),
        before.mark_below(n) == -1,
        forall|i: int| 0 <= i < k ==> (#[trigger] after.slot(i) is Mark) == (before.slot(i) is Mark),
    ensures
        after.mark_below(k) == -1,
    decreases k,
{
    lemma_mark_below(before, n);
    if k > 0 {
        assert(!(before.slot(k - 1) is Mark));
        assert(!(after.slot(k - 1) is Mark));
        lemma_no_mark_below(before, after, n, k - 1);
    }
}

fn push_zeros(out: &mut Vec<u8>, n: usize)
    ensures
        final(out)@ == old(out)@ + zeros(n as nat),
{
    let mut i: usize = 0;
    assert(out@ =~= old(out)@ + zeros(0));
    while i < n
        invariant
            i <= n,
            out@ == old(out)@ + zeros(i as nat),
        decreases n - i,
    {
        out.push(0);
        i = i + 1;
        assert(out@ =~= old(out)@ + zeros(i as nat));
    }
}

/// The terminator and the null value go onto the output and leave the
/// stack as it is, or one deeper.
pub proof fn lemma_simple_effects(s: StateView)
    ensures
        apply(s, OpcodeKind::Stop, None) == s,
        apply(s, OpcodeKind::Null, None).depth() == s.depth() + 1,
{
    reveal(effect);
}

/// The depth that is left of a stack of the depth `depth` after at most
/// `budget` tuples of three, or of two, were made of its top items.
pub open spec fn paired_depth(depth: nat, budget: nat) -> nat {
    if depth <= 1 {
        depth
    } else if depth <= 2 * budget + 1 {
        1
    } else {
        (depth - 2 * budget) as nat
    }
}

/// On a stack without markers, a tuple of the top three items, or of the
/// top two, and the null value leave the stack without markers; the tuple
/// takes the place of its items.
pub proof fn lemma_pairing_effects(s: StateView)
    requires
        s.stack.wf(),
        !s.stack.has_mark(),
    ensures
        s.depth() >= 3 ==> apply(s, OpcodeKind::Tuple3, None).depth() == s.depth() - 2 && !apply(
            s,
            OpcodeKind::Tuple3,
            None,
        ).stack.has_mark(),
        s.depth() >= 2 ==> apply(s, OpcodeKind::Tuple2, None).depth() == s.depth() - 1 && !apply(
            s,
            OpcodeKind::Tuple2,
            None,
        ).stack.has_mark(),
        !apply(s, OpcodeKind::Null, None).stack.has_mark(),
{
    reveal(effect);
    let len = s.stack.inner.len() as int;
    lemma_mark_below(s.stack, len);
    if len >= 3 {
        let after = apply(s, OpcodeKind::Tuple3, None).stack;
        lemma_no_mark_below(s.stack, after, len, len - 3);
    }
    if len >= 2 {
        let after = apply(s, OpcodeKind::Tuple2, None).stack;
        lemma_no_mark_below(s.stack, after, len, len - 2);
    }
    let after = apply(s, OpcodeKind::Null, None).stack;
    lemma_no_mark_below(s.stack, after, len, len);
}

impl Generator {
    /// Brings the stack down to one item for the terminator.
    pub fn cleanup_for_stop(&mut self)
        requires
            old(self).state@.wf(),
        ensures
            final(self).machine() == cleaned(old(self).machine()),
            final(self).state@.wf(),
            final(self).state@.version == old(self).state@.version,
            final(self).state@.proto_emitted == old(self).state@.proto_emitted,
            final(self).settings() == old(self).settings(),
            memo_clean(old(self).state@) ==> memo_clean(final(self).state@),
            appended(old(self).output@, final(self).output@),
            final(self).state@.depth() >= 1,
            !final(self).state@.stack.has_mark(),
            marks_removed(
                old(self).machine(),
                (old(self).state@.stack.mark_top() + 1) as nat,
            ).state.depth() <= 2 * CLEANUP_BUDGET + 1 ==> final(self).state@.depth() == 1,
            old(self).state@.depth() == 0 ==> final(self).output@.len() > old(self).output@.len(),
    {
        proof {
            lemma_mark_below(old(self).state@.stack, 0);
        }
        self.remove_marks();
        self.pair_items(Ghost(old(self).output@));
        self.fill_empty(Ghost(old(self).output@));
        let top_is_mark: bool = match self.peek() {
            Some(top) => self.state.stack.is_mark(top),
            None => false,
        };
        proof {
            lemma_mark_below(self.state@.stack, self.state@.stack.inner.len() as int);
        }
        if top_is_mark {
            let _top = self.pop();
            self.fill_empty(Ghost(old(self).output@));
        }
    }

    /// Makes a tuple of each group until the stack holds no marker.
    fn remove_marks(&mut self)
        requires
            old(self).state@.wf(),
        ensures
            final(self).machine() == marks_removed(
                old(self).machine(),
                (old(self).state@.stack.mark_top() + 1) as nat,
            ),
            final(self).state@.wf(),
            final(self).state@.version == old(self).state@.version,
            final(self).state@.proto_emitted == old(self).state@.proto_emitted,
            final(self).settings() == old(self).settings(),
            memo_clean(old(self).state@) ==> memo_clean(final(self).state@),
            appended(old(self).output@, final(self).output@),
            !final(self).state@.stack.has_mark(),
    {
        let ghost start = self.machine();
        let ghost mut budget: nat = (self.state@.stack.mark_top() + 1) as nat;
        proof {
            lemma_mark_below(self.state@.stack, self.state@.stack.inner.len() as int);
            lemma_emit_appends(start, OpcodeKind::Tuple, Seq::empty(), None);
        }
        while self.has_mark()
            invariant
                self.state@.wf(),
                self.state@.version == old(self).state@.version,
                self.state@.proto_emitted == old(self).state@.proto_emitted,
                self.settings() == old(self).settings(),
                appended(old(self).output@, self.output@),
                start == old(self).machine(),
                budget >= self.state@.stack.mark_top() + 1,
                memo_clean(old(self).state@) ==> memo_clean(self.state@),
                marks_removed(start, (start.state.stack.mark_top() + 1) as nat) == marks_removed(
                    self.machine(),
                    budget,
                ),
            decreases self.state@.stack.mark_top() + 1,
        {
            let ghost before = self.machine();
            proof {
                lemma_tuple_lowers_mark(self.state@);
                lemma_emit_appends(before, OpcodeKind::Tuple, Seq::empty(), None);
                lemma_appended_twice(
                    old(self).output@,
                    before.output,
                    before.emit(OpcodeKind::Tuple, Seq::empty(), None).output,
                );
            }
            self.emit_opcode(OpcodeKind::Tuple);
            proof {
                budget = (budget - 1) as nat;
                if memo_clean(before.state) {
                    lemma_step_keeps_clean(before.state, self.state@, OpcodeKind::Tuple);
                }
            }
        }
    }

    /// Makes tuples of the top items until one item is left.
    fn pair_items(&mut self, Ghost(base): Ghost<Seq<u8>>)
        requires
            old(self).state@.wf(),
            appended(base, old(self).output@),
        ensures
            final(self).machine() == paired(old(self).machine(), CLEANUP_BUDGET as nat),
            final(self).state@.wf(),
            final(self).state@.version == old(self).state@.version,
            final(self).state@.proto_emitted == old(self).state@.proto_emitted,
            final(self).settings() == old(self).settings(),
            memo_clean(old(self).state@) ==> memo_clean(final(self).state@),
            appended(base, final(self).output@),
            !old(self).state@.stack.has_mark() ==> !final(self).state@.stack.has_mark()
                && final(self).state@.depth() == paired_depth(
                old(self).state@.depth(),
                CLEANUP_BUDGET as nat,
            ),
    {
        let mut safety_counter: usize = 0;
        while self.state.stack.len() > 1 && safety_counter < CLEANUP_BUDGET
            invariant
                self.state@.wf(),
                self.state@.version == old(self).state@.version,
                self.state@.proto_emitted == old(self).state@.proto_emitted,
                self.settings() == old(self).settings(),
                appended(base, self.output@),
                safety_counter <= CLEANUP_BUDGET,
                memo_clean(old(self).state@) ==> memo_clean(self.state@),
                paired(old(self).machine(), CLEANUP_BUDGET as nat) == paired(
                    self.machine(),
                    (CLEANUP_BUDGET - safety_counter) as nat,
                ),
                !old(self).state@.stack.has_mark() ==> !self.state@.stack.has_mark()
                    && paired_depth(old(self).state@.depth(), CLEANUP_BUDGET as nat)
                    == paired_depth(
                    self.state@.depth(),
                    (CLEANUP_BUDGET - safety_counter) as nat,
                ),
            decreases CLEANUP_BUDGET - safety_counter,
        {
            safety_counter = safety_counter + 1;
            let ghost before = self.machine();
            proof {
                if !self.state@.stack.has_mark() {
                    lemma_pairing_effects(self.state@);
                }
            }
            let stack_len: usize = self.state.stack.len();
            if stack_len >= 3 {
                proof {
                    lemma_emit_appends(before, OpcodeKind::Tuple3, Seq::empty(), None);
                    lemma_appended_twice(
                        base,
                        before.output,
                        before.emit(OpcodeKind::Tuple3, Seq::empty(), None).output,
                    );
                }
                self.emit_opcode(OpcodeKind::Tuple3);
                proof {
                    if memo_clean(before.state) {
                        lemma_step_keeps_clean(before.state, self.state@, OpcodeKind::Tuple3);
                    }
                }
            } else {
                proof {
                    lemma_emit_appends(before, OpcodeKind::Tuple2, Seq::empty(), None);
                    lemma_appended_twice(
                        base,
                        before.output,
                        before.emit(OpcodeKind::Tuple2, Seq::empty(), None).output,
                    );
                }
                self.emit_opcode(OpcodeKind::Tuple2);
                proof {
                    if memo_clean(before.state) {
                        lemma_step_keeps_clean(before.state, self.state@, OpcodeKind::Tuple2);
                    }
                }
            }
        }
    }

    /// Pushes the null value if the stack is empty.
    fn fill_empty(&mut self, Ghost(base): Ghost<Seq<u8>>)
        requires
            old(self).state@.wf(),
            appended(base, old(self).output@),
        ensures
            final(self).machine() == filled(old(self).machine()),
            final(self).state@.wf(),
            final(self).state@.version == old(self).state@.version,
            final(self).state@.proto_emitted == old(self).state@.proto_emitted,
            final(self).settings() == old(self).settings(),
            memo_clean(old(self).state@) ==> memo_clean(final(self).state@),
            appended(base, final(self).output@),
            final(self).state@.depth() >= 1,
            old(self).state@.depth() >= 1 ==> final(self).state@ == old(self).state@,
            old(self).state@.depth() == 0 ==> final(self).state@.depth() == 1,
            !old(self).state@.stack.has_mark() ==> !final(self).state@.stack.has_mark(),
    {
        if self.state.stack.len() == 0 {
            proof {
                lemma_simple_effects(self.state@);
                if !self.state@.stack.has_mark() {
                    lemma_pairing_effects(self.state@);
                }
                lemma_emit_appends(self.machine(), OpcodeKind::Null, Seq::empty(), None);
                lemma_appended_twice(
                    base,
                    self.output@,
                    self.machine().emit(OpcodeKind::Null, Seq::empty(), None).output,
                );
            }
            self.emit_opcode(OpcodeKind::Null);
            proof {
                if memo_clean(old(self).state@) {
                    lemma_step_keeps_clean(old(self).state@, self.state@, OpcodeKind::Null);
                }
            }
        }
    }

    /// Decides the frame, writes the header, and keeps nine bytes for the
    /// frame if there is to be one; gives the place of those bytes.
    fn begin_pass(&mut self, source: &mut GenerationSource) -> (frame_position: Option<usize>)
        requires
            old(self).wf(),
        ensures
            frame_position is Some == frame_chosen(old(self).machine(), old(source)@).0,
            final(source)@ == frame_chosen(old(self).machine(), old(source)@).1,
            frame_position matches Some(pos) ==> pos == proto_emission(
                old(self).machine(),
            ).output.len() && final(self).machine() == proto_emission(old(self).machine()).write(
                zeros(9),
            ),
            frame_position is None ==> final(self).machine() == proto_emission(old(self).machine()),
            proto_emission(old(self).machine()).wf(),
            proto_emission(old(self).machine()).output.take(old(self).output@.len() as int) == old(self).output@,
            final(self).state@.wf(),
            final(self).state@.version == old(self).state@.version,
            final(self).state@.proto_emitted || final(self).state@.version.ordinal() < 2,
            final(self).settings() == old(self).settings(),
            memo_clean(old(self).state@) ==> memo_clean(final(self).state@),
    {
        let use_frame: bool = self.state.version.at_least(Version::V4) && source.gen_bool();
        self.emit_proto(source);
        assert(self.output@.take(old(self).output@.len() as int) =~= old(self).output@);
        if use_frame {
            let pos: usize = self.output.len();
            push_zeros(&mut self.output, 9);
            Some(pos)
        } else {
            None
        }
    }

    /// Decides the number of instructions of the body.
    fn choose_target(&self, source: &mut GenerationSource) -> (target: usize)
        ensures
            target == target_count(self.config(), old(source)@).0,
            final(source)@ == target_count(self.config(), old(source)@).1,
    {
        if self.max_opcodes > self.min_opcodes {
            let span: usize = self.max_opcodes - self.min_opcodes;
            let count: usize = if span == usize::MAX {
                span
            } else {
                span + 1
            };
            self.min_opcodes + source.choose_index(count)
        } else {
            self.min_opcodes
        }
    }

    /// Writes `target` instructions of the body.
    fn emit_body<F: FloatText>(&mut self, source: &mut GenerationSource, target: usize)
        requires
            old(self).state@.wf(),
            old(self).state@.proto_emitted || old(self).state@.version.ordinal() < 2,
        ensures
            (final(self).machine(), final(source)@) == body_after(
                old(self).config(),
                old(self).machine(),
                old(source)@,
                target as nat,
                texts::<F>(),
            ),
            final(self).state@.wf(),
            final(self).state@.version == old(self).state@.version,
            final(self).state@.proto_emitted == old(self).state@.proto_emitted,
            final(self).settings() == old(self).settings(),
            memo_clean(old(self).state@) ==> memo_clean(final(self).state@),
            appended(old(self).output@, final(self).output@),
            final(self).output@.len() > old(self).output@.len() || final(self).state@ == old(
                self,
            ).state@,
    {
        let ghost config = self.config();
        let ghost start = self.machine();
        let ghost s1 = source@;
        let mut i: usize = 0;
        proof {
            lemma_emit_appends(start, OpcodeKind::Null, Seq::empty(), None);
        }
        while i < target
            invariant
                i <= target,
                self.state@.wf(),
                self.settings() == old(self).settings(),
                config == old(self).config(),
                start == old(self).machine(),
                self.state@.version == start.state.version,
                self.state@.proto_emitted == start.state.proto_emitted,
                start.state.proto_emitted || start.state.version.ordinal() < 2,
                appended(start.output, self.output@),
                self.output@.len() > start.output.len() || self.state@ == start.state,
                memo_clean(start.state) ==> memo_clean(self.state@),
                (self.machine(), source@) == body_after(config, start, s1, i as nat, texts::<F>()),
            decreases target - i,
        {
            let ghost before = self.machine();
            let ghost before_source = source@;
            let valid_ops = self.get_valid_opcodes();
            proof {
                lemma_some_opcode_is_valid(config, self.state@);
                let table = crate::opcodes::version_opcodes(self.state@.version);
                lemma_legal_among(config, self.state@, table, table.len() as int);
            }
            let chosen_op = self.weighted_choice(valid_ops, source);
            self.emit_and_process::<F>(chosen_op, source);
            proof {
                lemma_appended_twice(start.output, before.output, self.output@);
                if memo_clean(before.state) {
                    assert(legal(config, before.state, chosen_op));
                    lemma_step_keeps_clean(before.state, self.state@, chosen_op);
                }
            }
            i = i + 1;
        }
    }

    /// Cleans the stack up, writes the terminator, and fills the frame in
    /// at `frame_position` if there is one.
    fn finish_pass(&mut self, frame_position: Option<usize>)
        requires
            old(self).state@.wf(),
            frame_position matches Some(pos) ==> pos + 9 <= old(self).output@.len(),
        ensures
            final(self).machine() == finished(old(self).machine(), frame_position),
            final(self).state@.wf(),
            final(self).state@.version == old(self).state@.version,
            final(self).state@.proto_emitted == old(self).state@.proto_emitted,
            final(self).settings() == old(self).settings(),
            memo_clean(old(self).state@) ==> memo_clean(final(self).state@),
            final(self).output@.len() > old(self).output@.len(),
            old(self).state@.depth() == 0 ==> final(self).output@.len() >= old(self).output@.len()
                + 2,
            final(self).output@.last() == 0x2eu8,
            final(self).state@.depth() >= 1,
            !final(self).state@.stack.has_mark(),
            frame_position is None ==> appended(old(self).output@, final(self).output@),
            frame_position matches Some(pos) ==> well_framed(final(self).output@, pos as int)
                && final(self).output@.take(pos as int) == old(self).output@.take(pos as int),
    {
        self.cleanup_for_stop();
        let ghost clean = self.machine();
        proof {
            lemma_simple_effects(self.state@);
            lemma_emit_appends(clean, OpcodeKind::Stop, Seq::empty(), None);
        }
        self.emit_opcode(OpcodeKind::Stop);
        let ghost done = self.machine();
        proof {
            if memo_clean(clean.state) {
                lemma_step_keeps_clean(clean.state, self.state@, OpcodeKind::Stop);
            }
        }
        proof {
            lemma_appended_twice(old(self).output@, clean.output, done.output);
            assert(done.output.last() == 0x2eu8);
        }
        match frame_position {
            Some(pos) => {
                let frame_size: usize = self.output.len() - (pos + 9);
                let mut field: Vec<u8> = Vec::new();
                push_le(&mut field, frame_size as u64, 8);
                proof {
                    reveal_with_fuel(le_bytes, 9);
                }
                self.output[pos] = OpcodeKind::Frame.as_u8();
                let mut k: usize = 0;
                while k < 8
                    invariant
                        k <= 8,
                        pos + 9 <= self.output@.len(),
                        self.output@.len() <= usize::MAX,
                        self.output@.len() == done.output.len(),
                        field@ == le_bytes(frame_size as nat, 8),
                        field@.len() == 8,
                        self.state@ == done.state,
                        self.settings() == old(self).settings(),
                        self.output@[pos as int] == 0x95u8,
                        forall|j: int| 0 <= j < k ==> self.output@[pos + 1 + j] == field@[j],
                        forall|j: int|
                            0 <= j < self.output@.len() && !(pos <= j < pos + 1 + k)
                                ==> self.output@[j] == done.output[j],
                    decreases 8 - k,
                {
                    self.output[pos + 1 + k] = field[k];
                    k = k + 1;
                }
                assert(self.output@ =~= framed(done.output, pos as int));
                assert(self.output@.subrange(pos + 1, pos + 9) =~= le_bytes(frame_size as nat, 8));
                assert(self.output@.take(pos as int) =~= old(self).output@.take(pos as int)) by {
                    assert(done.output.take(old(self).output@.len() as int) == old(self).output@);
                }
            },
            None => {},
        }
    }

    /// One pass with `source` as the entropy: the machine and the output
    /// are cleared, then come header, frame, body, cleanup and terminator.
    /// The decimal text of text floats comes from `F`. Returns the output.
    pub fn generate_internal<F: FloatText>(&mut self, source: &mut GenerationSource) -> (r: Result<
        Vec<u8>,
        GenerateError,
    >)
        ensures
            r is Ok,
            r->Ok_0@ == final(self).output@,
            (final(self).machine(), final(source)@) == pass(
                old(self).config(),
                old(self).state@.version,
                old(source)@,
                texts::<F>(),
            ),
            final(self).wf(),
            final(self).settings() == old(self).settings(),
            final(self).state@.version == old(self).state@.version,
            well_formed_output(old(self).state@.version, final(self).output@),
            final(self).state@.depth() >= 1,
            !final(self).state@.stack.has_mark(),
            frame_chosen(Machine::fresh(old(self).state@.version), old(source)@).0
                <==> final(self).output@[header_len(old(self).state@.version)] == 0x95u8,
    {
        self.reset();
        let ghost config = self.config();
        let ghost start = self.machine();
        let ghost s0 = source@;
        let ghost headed = proto_emission(start);
        let frame_position = self.begin_pass(source);
        let ghost reserved = self.machine();
        assert(reserved.output.take(headed.output.len() as int) =~= headed.output);
        let target: usize = self.choose_target(source);
        self.emit_body::<F>(source, target);
        let ghost body = self.machine();
        self.finish_pass(frame_position);
        proof {
            let out = self.output@;
            assert(headed.output.len() == header_len(start.state.version));
            assert(pass_from(config, start, s0, texts::<F>()) == (self.machine(), source@));
            assert(out.take(headed.output.len() as int) =~= headed.output) by {
                assert(body.output.take(reserved.output.len() as int) == reserved.output);
                if frame_position is None {
                    assert(out.take(body.output.len() as int) == body.output);
                } else {
                    assert(out.take(headed.output.len() as int) == body.output.take(
                        headed.output.len() as int,
                    ));
                }
            }
            if frame_position is None {
                lemma_appended_twice(reserved.output, body.output, out);
            }
        }
        let out: Vec<u8> = self.output.clone();
        Ok(out)
    }

    /// One pass with a ChaCha8 generator as the entropy, keyed by the seed
    /// or, without a seed, from the operating system's entropy. Returns
    /// the output. Without a seed, and where the operating system gives no
    /// entropy, nothing is generated, and the generator stays as it is.
    pub fn generate<F: FloatText>(&mut self) -> (r: Result<Vec<u8>, GenerateError>)
        ensures
            old(self).seed is Some ==> r is Ok,
            r is Err ==> final(self).machine() == old(self).machine(),
            final(self).settings() == old(self).settings(),
            final(self).state@.version == old(self).state@.version,
            old(self).wf() ==> final(self).wf(),
            r is Ok ==> {
                &&& r->Ok_0@ == final(self).output@
                &&& old(self).seed matches Some(seed) ==> final(self).machine() == pass(
                    old(self).config(),
                    old(self).state@.version,
                    SourceView::Rand { key: chacha_key(seed), pos: 0 },
                    texts::<F>(),
                ).0
                &&& exists|key: Seq<u8>|
                    final(self).machine() == (#[trigger] pass(
                        old(self).config(),
                        old(self).state@.version,
                        SourceView::Rand { key, pos: 0 },
                        texts::<F>(),
                    )).0
                &&& final(self).wf()
                &&& well_formed_output(old(self).state@.version, r->Ok_0@)
                &&& final(self).state@.depth() >= 1
                &&& !final(self).state@.stack.has_mark()
            },
    {
        let source = match self.seed {
            Some(seed) => Some(GenerationSource::from_seed(seed)),
            None => GenerationSource::from_os_entropy(),
        };
        match source {
            Some(source) => {
                let mut source = source;
                let ghost key = source@->key;
                assert(source@ == SourceView::Rand { key, pos: 0 });
                let r = self.generate_internal::<F>(&mut source);
                assert(self.machine() == pass(
                    old(self).config(),
                    old(self).state@.version,
                    SourceView::Rand { key, pos: 0 },
                    texts::<F>(),
                ).0);
                r
            },
            None => Err(GenerateError::EntropyUnavailable),
        }
    }

    /// One pass with the bytes `data` as the entropy. Returns the output.
    pub fn generate_from_arbitrary<F: FloatText>(&mut self, data: &[u8]) -> (r: Result<
        Vec<u8>,
        GenerateError,
    >)
        ensures
            r is Ok,
            r->Ok_0@ == final(self).output@,
            final(self).machine() == pass(
                old(self).config(),
                old(self).state@.version,
                SourceView::Arbitrary { rest: data@ },
                texts::<F>(),
            ).0,
            final(self).settings() == old(self).settings(),
            final(self).state@.version == old(self).state@.version,
            final(self).wf(),
            well_formed_output(old(self).state@.version, r->Ok_0@),
            final(self).state@.depth() >= 1,
            !final(self).state@.stack.has_mark(),
    {
        let mut source = GenerationSource::from_bytes(data);
        self.generate_internal::<F>(&mut source)
    }
}

} // verus!
