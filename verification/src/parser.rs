//! The escape sequence parser: a byte-oriented state machine that turns
//! an arbitrarily chunked byte stream into [`Action`]s.
//!
//! The parser is resumable: its state survives across [`Parser::feed`]
//! calls, so a sequence split at any byte boundary decodes exactly as it
//! would in one piece ([`lemma_feed_chunk_invariance`]). Malformed input
//! is never an error: the parser silently returns to ground state.
//!
//! The behavior is pinned down by a mathematical model: [`spec_step`]
//! maps a parser state and one input byte to the next state and at most
//! one emitted action, and [`run_state`] / [`run_actions`] fold it over
//! a byte sequence. `feed` ensures it computes exactly that fold.

use vstd::prelude::*;

use crate::action::Action;
use crate::action::ActionView;

verus! {

/// Most bytes a single control sequence may carry as its OSC payload;
/// further bytes are dropped (the terminator is still honored).
pub const OSC_CAP: usize = 4096;

/// Most numeric parameters a CSI sequence may carry; further parameters
/// are dropped.
pub const PARAM_CAP: usize = 32;

/// The decoding mode the parser is in between bytes.
#[derive(Clone, Copy, Debug, PartialEq, Eq, Structural)]
pub enum ParseState {
    /// Normal text; also collecting the continuation bytes of a UTF-8
    /// encoded character (when a multi-byte character is pending).
    Ground,
    /// Just after ESC.
    Escape,
    /// After `ESC (` or `ESC )`: one charset byte is consumed and
    /// discarded (only UTF-8/ASCII rendering is supported).
    Charset,
    /// Collecting a `CSI ... final` sequence.
    Csi,
    /// Collecting an `OSC ... BEL/ST` string.
    Osc,
    /// Saw ESC inside an OSC string; a following `\` is the ST
    /// terminator.
    OscEsc,
    /// Device control string; collected bytes are discarded.
    Dcs,
    /// Saw ESC inside a DCS string.
    DcsEsc,
}

/// The mathematical state of the parser. [`Parser`] views to this.
pub struct ParserModel {
    pub state: ParseState,
    /// Continuation bytes still expected for the pending UTF-8 character.
    pub utf8_need: u8,
    /// Code point bits accumulated so far.
    pub utf8_acc: u32,
    /// Total byte length of the pending UTF-8 encoding (2 to 4).
    pub utf8_len: u8,
    /// Completed CSI parameters.
    pub params: Seq<Option<u16>>,
    /// The numeric parameter being accumulated.
    pub cur: u16,
    /// Whether digits have been seen for the current parameter.
    pub cur_present: bool,
    /// Whether the sequence began with a private-mode marker.
    pub private: bool,
    /// Whether the sequence carried bytes this core does not decode; if
    /// so it is discarded at dispatch.
    pub ignore: bool,
    /// OSC payload collected so far.
    pub osc: Seq<u8>,
}

impl ParserModel {
    /// The state of a freshly created parser.
    pub open spec fn init() -> ParserModel {
        ParserModel {
            state: ParseState::Ground,
            utf8_need: 0,
            utf8_acc: 0,
            utf8_len: 0,
            params: Seq::empty(),
            cur: 0,
            cur_present: false,
            private: false,
            ignore: false,
            osc: Seq::empty(),
        }
    }
}

/// True when the parser stands between sequences: ground state with no
/// UTF-8 character pending. A fresh parser is ready, and so is any
/// parser that has consumed only complete sequences.
pub open spec fn ready(p: ParserModel) -> bool {
    &&& p.state is Ground
    &&& p.utf8_need == 0
    &&& p.utf8_acc == 0
    &&& p.utf8_len == 0
}

/// The view of an optional exec action.
pub open spec fn opt_view(a: Option<Action>) -> Option<ActionView> {
    match a {
        Some(x) => Some(x@),
        None => None,
    }
}

/// An optional action as a (zero- or one-element) action sequence.
pub open spec fn opt_actions(a: Option<ActionView>) -> Seq<ActionView> {
    match a {
        Some(x) => seq![x],
        None => Seq::empty(),
    }
}

/// One numeric digit folded into a CSI parameter, saturating at the
/// largest value a parameter can hold.
pub open spec fn spec_param_accum(cur: u16, d: u16) -> u16 {
    if cur * 10 + d > 0xFFFF {
        0xFFFF as u16
    } else {
        (cur * 10 + d) as u16
    }
}

/// The parameter list a CSI sequence dispatches with: the completed
/// parameters, plus the one being accumulated (absent parameters are
/// `None`). A sequence with no separators and no digits has no
/// parameters at all.
pub open spec fn spec_finish_params(p: ParserModel) -> Seq<Option<u16>> {
    if p.params.len() == 0 && !p.cur_present {
        p.params
    } else if p.params.len() < PARAM_CAP as int {
        p.params.push(if p.cur_present { Some(p.cur) } else { None })
    } else {
        p.params
    }
}

/// The action a completed CSI sequence dispatches, if this core decodes
/// its final byte. Private-prefixed sequences are decoded only for the
/// mode commands `h` and `l`.
pub open spec fn spec_decode_csi(fin: u8, ps: Seq<Option<u16>>, privat: bool) -> Option<
    ActionView,
> {
    let p0 = if ps.len() > 0 {
        ps[0]
    } else {
        None
    };
    let p1 = if ps.len() > 1 {
        ps[1]
    } else {
        None
    };
    if privat && fin != 0x68 && fin != 0x6C {
        None
    } else if fin == 0x41 {
        Some(ActionView::CursorUp(p0))
    } else if fin == 0x42 {
        Some(ActionView::CursorDown(p0))
    } else if fin == 0x43 {
        Some(ActionView::CursorForward(p0))
    } else if fin == 0x44 {
        Some(ActionView::CursorBack(p0))
    } else if fin == 0x48 || fin == 0x66 {
        Some(ActionView::CursorPosition(p0, p1))
    } else if fin == 0x4A {
        Some(ActionView::EraseInDisplay(p0))
    } else if fin == 0x4B {
        Some(ActionView::EraseInLine(p0))
    } else if fin == 0x6D {
        Some(ActionView::SetGraphicRendition(ps))
    } else if fin == 0x53 {
        Some(ActionView::ScrollUp(p0))
    } else if fin == 0x54 {
        Some(ActionView::ScrollDown(p0))
    } else if fin == 0x72 {
        Some(ActionView::SetScrollRegion(p0, p1))
    } else if fin == 0x73 {
        Some(ActionView::SaveCursor)
    } else if fin == 0x75 {
        Some(ActionView::RestoreCursor)
    } else if fin == 0x68 {
        Some(ActionView::SetMode(privat, p0))
    } else if fin == 0x6C {
        Some(ActionView::ResetMode(privat, p0))
    } else {
        None
    }
}

/// The action a completed OSC string dispatches: a window title for the
/// `0`, `1` and `2` commands, nothing otherwise.
pub open spec fn spec_dispatch_osc(osc: Seq<u8>) -> Option<ActionView> {
    if osc.len() >= 2 && (osc[0] == 0x30 || osc[0] == 0x31 || osc[0] == 0x32) && osc[1] == 0x3B {
        Some(ActionView::WindowTitle(osc.subrange(2, osc.len() as int)))
    } else {
        None
    }
}

/// The parser with the pending UTF-8 character discarded.
pub open spec fn clear_utf8(p: ParserModel) -> ParserModel {
    ParserModel { utf8_need: 0, utf8_acc: 0, utf8_len: 0, ..p }
}

/// The parser returned to ground state with nothing pending.
pub open spec fn to_ground(p: ParserModel) -> ParserModel {
    ParserModel { state: ParseState::Ground, utf8_need: 0, utf8_acc: 0, utf8_len: 0, ..p }
}

/// The parser just after ESC.
pub open spec fn to_escape(p: ParserModel) -> ParserModel {
    ParserModel { state: ParseState::Escape, utf8_need: 0, utf8_acc: 0, utf8_len: 0, ..p }
}

/// The parser entering CSI collection with a cleared parameter list.
pub open spec fn to_csi(p: ParserModel) -> ParserModel {
    ParserModel {
        state: ParseState::Csi,
        params: Seq::empty(),
        cur: 0,
        cur_present: false,
        private: false,
        ignore: false,
        ..p
    }
}

/// The parser entering OSC collection with a cleared payload.
pub open spec fn to_osc(p: ParserModel) -> ParserModel {
    ParserModel { state: ParseState::Osc, osc: Seq::empty(), ..p }
}

/// One byte consumed in ground state with no UTF-8 character pending.
pub open spec fn spec_step_ground(p: ParserModel, b: u8) -> (ParserModel, Option<ActionView>) {
    if b == 0x1B {
        (to_escape(p), None)
    } else if b == 0x18 || b == 0x1A {
        (p, None)
    } else if b == 0x07 {
        (p, Some(ActionView::Bell))
    } else if b == 0x08 {
        (p, Some(ActionView::Backspace))
    } else if b == 0x09 {
        (p, Some(ActionView::Tab))
    } else if b == 0x0A {
        (p, Some(ActionView::LineFeed))
    } else if b == 0x0D {
        (p, Some(ActionView::CarriageReturn))
    } else if b < 0x20 || b == 0x7F {
        (p, None)
    } else if b <= 0x7E {
        (p, Some(ActionView::Print((b as u32) as char)))
    } else if 0xC0 <= b && b <= 0xDF {
        (ParserModel { utf8_need: 1, utf8_len: 2, utf8_acc: (b & 0x1F) as u32, ..p }, None)
    } else if 0xE0 <= b && b <= 0xEF {
        (ParserModel { utf8_need: 2, utf8_len: 3, utf8_acc: (b & 0x0F) as u32, ..p }, None)
    } else if 0xF0 <= b && b <= 0xF7 {
        (ParserModel { utf8_need: 3, utf8_len: 4, utf8_acc: (b & 0x07) as u32, ..p }, None)
    } else {
        // A stray continuation byte or an invalid byte: discarded.
        (p, None)
    }
}

/// The smallest code point a UTF-8 encoding of the given byte length may
/// carry; shorter encodings of smaller values are overlong and rejected.
pub open spec fn spec_utf8_min(len: u8) -> u32 {
    if len == 2 {
        0x80
    } else if len == 3 {
        0x800
    } else {
        0x10000
    }
}

/// One byte consumed while continuation bytes of a UTF-8 character are
/// pending.
pub open spec fn spec_step_utf8(p: ParserModel, b: u8) -> (ParserModel, Option<ActionView>) {
    if 0x80 <= b && b <= 0xBF {
        let acc = (p.utf8_acc << 6) | ((b & 0x3F) as u32);
        if p.utf8_need > 1 {
            (ParserModel { utf8_need: (p.utf8_need - 1) as u8, utf8_acc: acc, ..p }, None)
        } else {
            // The character is complete; reject overlong encodings,
            // surrogates and out-of-range values.
            if spec_utf8_min(p.utf8_len) <= acc && acc <= 0x10FFFF && !(0xD800 <= acc && acc
                <= 0xDFFF) {
                (clear_utf8(p), Some(ActionView::Print(acc as char)))
            } else {
                (clear_utf8(p), None)
            }
        }
    } else {
        // Malformed: discard the partial character, then give the byte
        // its ordinary meaning.
        spec_step_ground(clear_utf8(p), b)
    }
}

/// One byte consumed just after ESC.
pub open spec fn spec_step_escape(p: ParserModel, b: u8) -> (ParserModel, Option<ActionView>) {
    if b == 0x5B {
        (to_csi(p), None)
    } else if b == 0x5D {
        (to_osc(p), None)
    } else if b == 0x50 {
        (ParserModel { state: ParseState::Dcs, ..p }, None)
    } else if b == 0x28 || b == 0x29 {
        (ParserModel { state: ParseState::Charset, ..p }, None)
    } else if b == 0x37 {
        (to_ground(p), Some(ActionView::SaveCursor))
    } else if b == 0x38 {
        (to_ground(p), Some(ActionView::RestoreCursor))
    } else if b == 0x63 {
        (to_ground(p), Some(ActionView::Reset))
    } else if b == 0x1B {
        (p, None)
    } else {
        (to_ground(p), None)
    }
}

/// One byte consumed after `ESC (` or `ESC )`: the charset designator is
/// discarded.
pub open spec fn spec_step_charset(p: ParserModel, b: u8) -> (ParserModel, Option<ActionView>) {
    if b == 0x1B {
        (to_escape(p), None)
    } else {
        (to_ground(p), None)
    }
}

/// One byte consumed while collecting a CSI sequence.
pub open spec fn spec_step_csi(p: ParserModel, b: u8) -> (ParserModel, Option<ActionView>) {
    if b == 0x18 || b == 0x1A {
        (to_ground(p), None)
    } else if b == 0x1B {
        (to_escape(p), None)
    } else if 0x30 <= b && b <= 0x39 {
        (
            ParserModel {
                cur: spec_param_accum(p.cur, (b - 0x30) as u16),
                cur_present: true,
                ..p
            },
            None,
        )
    } else if b == 0x3B {
        let entry = if p.cur_present {
            Some(p.cur)
        } else {
            None
        };
        let params = if p.params.len() < PARAM_CAP as int {
            p.params.push(entry)
        } else {
            p.params
        };
        (ParserModel { params, cur: 0, cur_present: false, ..p }, None)
    } else if 0x3C <= b && b <= 0x3F {
        if !p.cur_present && p.params.len() == 0 {
            (ParserModel { private: true, ..p }, None)
        } else {
            (ParserModel { ignore: true, ..p }, None)
        }
    } else if b == 0x3A || (0x20 <= b && b <= 0x2F) {
        (ParserModel { ignore: true, ..p }, None)
    } else if 0x40 <= b && b <= 0x7E {
        let act = if p.ignore {
            None
        } else {
            spec_decode_csi(b, spec_finish_params(p), p.private)
        };
        (to_ground(to_csi(p)), act)
    } else {
        // Other control bytes inside a sequence are dropped.
        (p, None)
    }
}

/// One byte consumed while collecting an OSC string.
pub open spec fn spec_step_osc(p: ParserModel, b: u8) -> (ParserModel, Option<ActionView>) {
    if b == 0x07 {
        (to_ground(p), spec_dispatch_osc(p.osc))
    } else if b == 0x1B {
        (ParserModel { state: ParseState::OscEsc, ..p }, None)
    } else if b == 0x18 || b == 0x1A {
        (to_ground(p), None)
    } else if b < 0x20 {
        (p, None)
    } else if p.osc.len() < OSC_CAP as int {
        (ParserModel { osc: p.osc.push(b), ..p }, None)
    } else {
        (p, None)
    }
}

/// One byte consumed after ESC inside an OSC string.
pub open spec fn spec_step_osc_esc(p: ParserModel, b: u8) -> (ParserModel, Option<ActionView>) {
    if b == 0x5C {
        (to_ground(p), spec_dispatch_osc(p.osc))
    } else {
        // The string was abandoned; the ESC keeps its ordinary meaning.
        spec_step_escape(p, b)
    }
}

/// One byte consumed while collecting a device control string, which
/// this core discards.
pub open spec fn spec_step_dcs(p: ParserModel, b: u8) -> (ParserModel, Option<ActionView>) {
    if b == 0x1B {
        (ParserModel { state: ParseState::DcsEsc, ..p }, None)
    } else if b == 0x18 || b == 0x1A {
        (to_ground(p), None)
    } else {
        (p, None)
    }
}

/// One byte consumed after ESC inside a device control string.
pub open spec fn spec_step_dcs_esc(p: ParserModel, b: u8) -> (ParserModel, Option<ActionView>) {
    if b == 0x5C {
        (to_ground(p), None)
    } else {
        spec_step_escape(p, b)
    }
}

/// The transition function of the parser: one consumed byte yields the
/// next parser state and at most one action.
pub open spec fn spec_step(p: ParserModel, b: u8) -> (ParserModel, Option<ActionView>) {
    match p.state {
        ParseState::Ground => if p.utf8_need > 0 {
            spec_step_utf8(p, b)
        } else {
            spec_step_ground(p, b)
        },
        ParseState::Escape => spec_step_escape(p, b),
        ParseState::Charset => spec_step_charset(p, b),
        ParseState::Csi => spec_step_csi(p, b),
        ParseState::Osc => spec_step_osc(p, b),
        ParseState::OscEsc => spec_step_osc_esc(p, b),
        ParseState::Dcs => spec_step_dcs(p, b),
        ParseState::DcsEsc => spec_step_dcs_esc(p, b),
    }
}

/// The parser state after consuming a whole byte sequence.
pub open spec fn run_state(p: ParserModel, bytes: Seq<u8>) -> ParserModel
    decreases bytes.len(),
{
    if bytes.len() == 0 {
        p
    } else {
        run_state(spec_step(p, bytes[0]).0, bytes.drop_first())
    }
}

/// The actions emitted while consuming a whole byte sequence, in order.
pub open spec fn run_actions(p: ParserModel, bytes: Seq<u8>) -> Seq<ActionView>
    decreases bytes.len(),
{
    if bytes.len() == 0 {
        Seq::empty()
    } else {
        opt_actions(spec_step(p, bytes[0]).1) + run_actions(
            spec_step(p, bytes[0]).0,
            bytes.drop_first(),
        )
    }
}

/// Chunk-boundary invariance: a byte stream split into two `feed` calls
/// yields exactly the actions and the state of feeding it whole. This is
/// what makes the parser resumable at any byte boundary.
pub proof fn lemma_feed_chunk_invariance(p: ParserModel, a: Seq<u8>, b: Seq<u8>)
    ensures
        run_state(p, a + b) == run_state(run_state(p, a), b),
        run_actions(p, a + b) == run_actions(p, a) + run_actions(run_state(p, a), b),
    decreases a.len(),
{
    if a.len() == 0 {
        assert(a + b =~= b);
        assert(run_actions(p, a) + run_actions(run_state(p, a), b) =~= run_actions(p, b));
    } else {
        let p1 = spec_step(p, a[0]).0;
        assert((a + b)[0] == a[0]);
        assert((a + b).drop_first() =~= a.drop_first() + b);
        lemma_feed_chunk_invariance(p1, a.drop_first(), b);
        assert(run_actions(p, a + b) =~= run_actions(p, a) + run_actions(run_state(p, a), b));
    }
}

/// Consuming one more byte extends the run by one step.
pub proof fn lemma_run_snoc(p: ParserModel, bytes: Seq<u8>, i: int)
    requires
        0 <= i < bytes.len(),
    ensures
        run_state(p, bytes.take(i + 1)) == spec_step(run_state(p, bytes.take(i)), bytes[i]).0,
        run_actions(p, bytes.take(i + 1)) == run_actions(p, bytes.take(i)) + opt_actions(
            spec_step(run_state(p, bytes.take(i)), bytes[i]).1,
        ),
{
    let one = seq![bytes[i]];
    assert(bytes.take(i + 1) =~= bytes.take(i) + one);
    lemma_feed_chunk_invariance(p, bytes.take(i), one);
    let q = run_state(p, bytes.take(i));
    assert(one[0] == bytes[i]);
    assert(one.drop_first().len() == 0);
    assert(run_state(q, one) == run_state(spec_step(q, one[0]).0, one.drop_first()));
    assert(run_state(spec_step(q, one[0]).0, one.drop_first()) == spec_step(q, one[0]).0);
    assert(run_actions(q, one) == opt_actions(spec_step(q, one[0]).1) + run_actions(
        spec_step(q, one[0]).0,
        one.drop_first(),
    ));
    assert(run_actions(spec_step(q, one[0]).0, one.drop_first()) =~= Seq::<ActionView>::empty());
    assert(run_actions(q, one) =~= opt_actions(spec_step(q, bytes[i]).1));
}

/// Relies on `char::from_u32`: returns `Some` exactly for Unicode scalar
/// values (at most 0x10FFFF and not a surrogate), and the returned
/// character has the given value.
#[verifier::external_body]
fn char_from_scalar(v: u32) -> (r: Option<char>)
    ensures
        vstd::utf8::is_scalar(v) <==> r is Some,
        r is Some ==> r == Some(v as char),
{
    char::from_u32(v)
}

/// The escape sequence parser. See the module documentation; the exact
/// behavior is [`spec_step`] folded over the input.
#[derive(Debug)]
pub struct Parser {
    state: ParseState,
    utf8_need: u8,
    utf8_acc: u32,
    utf8_len: u8,
    params: Vec<Option<u16>>,
    cur: u16,
    cur_present: bool,
    private: bool,
    ignore: bool,
    osc: Vec<u8>,
}

impl View for Parser {
    type V = ParserModel;

    closed spec fn view(&self) -> ParserModel {
        ParserModel {
            state: self.state,
            utf8_need: self.utf8_need,
            utf8_acc: self.utf8_acc,
            utf8_len: self.utf8_len,
            params: self.params@,
            cur: self.cur,
            cur_present: self.cur_present,
            private: self.private,
            ignore: self.ignore,
            osc: self.osc@,
        }
    }
}

impl Parser {
    /// A parser in ground state with nothing pending.
    pub fn new() -> (r: Parser)
        ensures
            r@ == ParserModel::init(),
    {
        Parser {
            state: ParseState::Ground,
            utf8_need: 0,
            utf8_acc: 0,
            utf8_len: 0,
            params: Vec::new(),
            cur: 0,
            cur_present: false,
            private: false,
            ignore: false,
            osc: Vec::new(),
        }
    }

    /// Discards any pending UTF-8 character.
    fn clear_utf8(&mut self)
        ensures
            final(self)@ == clear_utf8(old(self)@),
    {
        self.utf8_need = 0;
        self.utf8_acc = 0;
        self.utf8_len = 0;
    }

    /// Returns to ground state with nothing pending.
    fn to_ground(&mut self)
        ensures
            final(self)@ == to_ground(old(self)@),
    {
        self.state = ParseState::Ground;
        self.clear_utf8();
    }

    fn step_ground(&mut self, b: u8) -> (r: Option<Action>)
        requires
            old(self)@.state is Ground,
            old(self)@.utf8_need == 0,
        ensures
            final(self)@ == spec_step_ground(old(self)@, b).0,
            opt_view(r) == spec_step_ground(old(self)@, b).1,
    {
        if b == 0x1B {
            self.state = ParseState::Escape;
            self.clear_utf8();
            None
        } else if b == 0x18 || b == 0x1A {
            None
        } else if b == 0x07 {
            Some(Action::Bell)
        } else if b == 0x08 {
            Some(Action::Backspace)
        } else if b == 0x09 {
            Some(Action::Tab)
        } else if b == 0x0A {
            Some(Action::LineFeed)
        } else if b == 0x0D {
            Some(Action::CarriageReturn)
        } else if b < 0x20 || b == 0x7F {
            None
        } else if b <= 0x7E {
            match char_from_scalar(b as u32) {
                Some(ch) => Some(Action::Print(ch)),
                None => {
                    proof {
                        assert(false);
                    }
                    None
                },
            }
        } else if 0xC0 <= b && b <= 0xDF {
            self.utf8_need = 1;
            self.utf8_len = 2;
            self.utf8_acc = (b & 0x1F) as u32;
            None
        } else if 0xE0 <= b && b <= 0xEF {
            self.utf8_need = 2;
            self.utf8_len = 3;
            self.utf8_acc = (b & 0x0F) as u32;
            None
        } else if 0xF0 <= b && b <= 0xF7 {
            self.utf8_need = 3;
            self.utf8_len = 4;
            self.utf8_acc = (b & 0x07) as u32;
            None
        } else {
            None
        }
    }

    fn step_utf8(&mut self, b: u8) -> (r: Option<Action>)
        requires
            old(self)@.state is Ground,
            old(self)@.utf8_need > 0,
        ensures
            final(self)@ == spec_step_utf8(old(self)@, b).0,
            opt_view(r) == spec_step_utf8(old(self)@, b).1,
    {
        if 0x80 <= b && b <= 0xBF {
            let acc = (self.utf8_acc << 6u32) | ((b & 0x3F) as u32);
            if self.utf8_need > 1 {
                self.utf8_need = self.utf8_need - 1;
                self.utf8_acc = acc;
                None
            } else {
                let min: u32 = if self.utf8_len == 2 {
                    0x80
                } else if self.utf8_len == 3 {
                    0x800
                } else {
                    0x10000
                };
                let ok = min <= acc && acc <= 0x10FFFF && !(0xD800 <= acc && acc <= 0xDFFF);
                self.clear_utf8();
                if ok {
                    proof {
                        assert(vstd::utf8::is_scalar(acc));
                    }
                    match char_from_scalar(acc) {
                        Some(ch) => Some(Action::Print(ch)),
                        None => {
                            proof {
                                assert(false);
                            }
                            None
                        },
                    }
                } else {
                    None
                }
            }
        } else {
            self.clear_utf8();
            self.step_ground(b)
        }
    }

    fn step_escape(&mut self, b: u8) -> (r: Option<Action>)
        ensures
            final(self)@ == spec_step_escape(old(self)@, b).0,
            opt_view(r) == spec_step_escape(old(self)@, b).1,
    {
        if b == 0x5B {
            self.state = ParseState::Csi;
            self.params = Vec::new();
            self.cur = 0;
            self.cur_present = false;
            self.private = false;
            self.ignore = false;
            None
        } else if b == 0x5D {
            self.state = ParseState::Osc;
            self.osc = Vec::new();
            None
        } else if b == 0x50 {
            self.state = ParseState::Dcs;
            None
        } else if b == 0x28 || b == 0x29 {
            self.state = ParseState::Charset;
            None
        } else if b == 0x37 {
            self.to_ground();
            Some(Action::SaveCursor)
        } else if b == 0x38 {
            self.to_ground();
            Some(Action::RestoreCursor)
        } else if b == 0x63 {
            self.to_ground();
            Some(Action::Reset)
        } else if b == 0x1B {
            None
        } else {
            self.to_ground();
            None
        }
    }

    fn step_csi(&mut self, b: u8) -> (r: Option<Action>)
        ensures
            final(self)@ == spec_step_csi(old(self)@, b).0,
            opt_view(r) == spec_step_csi(old(self)@, b).1,
    {
        if b == 0x18 || b == 0x1A {
            self.to_ground();
            None
        } else if b == 0x1B {
            self.state = ParseState::Escape;
            self.clear_utf8();
            None
        } else if 0x30 <= b && b <= 0x39 {
            let d = (b - 0x30) as u16;
            let wide: u32 = (self.cur as u32) * 10 + (d as u32);
            self.cur = if wide > 0xFFFF {
                0xFFFF
            } else {
                wide as u16
            };
            self.cur_present = true;
            None
        } else if b == 0x3B {
            let entry = if self.cur_present {
                Some(self.cur)
            } else {
                None
            };
            if self.params.len() < PARAM_CAP {
                self.params.push(entry);
            }
            self.cur = 0;
            self.cur_present = false;
            None
        } else if 0x3C <= b && b <= 0x3F {
            if !self.cur_present && self.params.len() == 0 {
                self.private = true;
            } else {
                self.ignore = true;
            }
            None
        } else if b == 0x3A || (0x20 <= b && b <= 0x2F) {
            self.ignore = true;
            None
        } else if 0x40 <= b && b <= 0x7E {
            let ghost pre = self@;
            let mut ps: Vec<Option<u16>> = Vec::new();
            core::mem::swap(&mut ps, &mut self.params);
            if !(ps.len() == 0 && !self.cur_present) && ps.len() < PARAM_CAP {
                let entry = if self.cur_present {
                    Some(self.cur)
                } else {
                    None
                };
                ps.push(entry);
            }
            proof {
                assert(ps@ == spec_finish_params(pre));
            }
            let act = if self.ignore {
                None
            } else {
                decode_csi(b, ps, self.private)
            };
            self.cur = 0;
            self.cur_present = false;
            self.private = false;
            self.ignore = false;
            self.state = ParseState::Ground;
            self.clear_utf8();
            proof {
                assert(final(self)@ == to_ground(to_csi(pre)));
            }
            act
        } else {
            None
        }
    }

    fn step_osc(&mut self, b: u8) -> (r: Option<Action>)
        ensures
            final(self)@ == spec_step_osc(old(self)@, b).0,
            opt_view(r) == spec_step_osc(old(self)@, b).1,
    {
        if b == 0x07 {
            let act = dispatch_osc(&self.osc);
            self.to_ground();
            act
        } else if b == 0x1B {
            self.state = ParseState::OscEsc;
            None
        } else if b == 0x18 || b == 0x1A {
            self.to_ground();
            None
        } else if b < 0x20 {
            None
        } else {
            if self.osc.len() < OSC_CAP {
                self.osc.push(b);
            }
            None
        }
    }

    fn step_osc_esc(&mut self, b: u8) -> (r: Option<Action>)
        ensures
            final(self)@ == spec_step_osc_esc(old(self)@, b).0,
            opt_view(r) == spec_step_osc_esc(old(self)@, b).1,
    {
        if b == 0x5C {
            let act = dispatch_osc(&self.osc);
            self.to_ground();
            act
        } else {
            self.step_escape(b)
        }
    }

    fn step_dcs(&mut self, b: u8) -> (r: Option<Action>)
        ensures
            final(self)@ == spec_step_dcs(old(self)@, b).0,
            opt_view(r) == spec_step_dcs(old(self)@, b).1,
    {
        if b == 0x1B {
            self.state = ParseState::DcsEsc;
            None
        } else if b == 0x18 || b == 0x1A {
            self.to_ground();
            None
        } else {
            None
        }
    }

    fn step_dcs_esc(&mut self, b: u8) -> (r: Option<Action>)
        ensures
            final(self)@ == spec_step_dcs_esc(old(self)@, b).0,
            opt_view(r) == spec_step_dcs_esc(old(self)@, b).1,
    {
        if b == 0x5C {
            self.to_ground();
            None
        } else {
            self.step_escape(b)
        }
    }

    /// Consumes one byte.
    fn step_byte(&mut self, b: u8) -> (r: Option<Action>)
        ensures
            final(self)@ == spec_step(old(self)@, b).0,
            opt_view(r) == spec_step(old(self)@, b).1,
    {
        match self.state {
            ParseState::Ground => if self.utf8_need > 0 {
                self.step_utf8(b)
            } else {
                self.step_ground(b)
            },
            ParseState::Escape => self.step_escape(b),
            ParseState::Charset => {
                if b == 0x1B {
                    self.state = ParseState::Escape;
                    self.clear_utf8();
                } else {
                    self.to_ground();
                }
                None
            },
            ParseState::Csi => self.step_csi(b),
            ParseState::Osc => self.step_osc(b),
            ParseState::OscEsc => self.step_osc_esc(b),
            ParseState::Dcs => self.step_dcs(b),
            ParseState::DcsEsc => self.step_dcs_esc(b),
        }
    }

    /// Consumes a chunk of the byte stream and returns the actions it
    /// completes, in input order. The parser keeps its state across
    /// calls, so sequences may be split arbitrarily between chunks.
    pub fn feed(&mut self, data: &[u8]) -> (acts: Vec<Action>)
        ensures
            final(self)@ == run_state(old(self)@, data@),
            views_of(acts@) == run_actions(old(self)@, data@),
    {
        let ghost p0 = self@;
        let mut acts: Vec<Action> = Vec::new();
        let mut i: usize = 0;
        while i < data.len()
            invariant
                0 <= i <= data@.len(),
                self@ == run_state(p0, data@.take(i as int)),
                views_of(acts@) == run_actions(p0, data@.take(i as int)),
            decreases data@.len() - i,
        {
            let ghost pre = self@;
            let ghost acts_pre = acts@;
            let b = data[i];
            let r = self.step_byte(b);
            match r {
                Some(a) => {
                    acts.push(a);
                    proof {
                        assert(views_of(acts@) =~= views_of(acts_pre) + opt_actions(
                            opt_view(Some(acts@[acts@.len() - 1])),
                        ));
                    }
                },
                None => {
                    proof {
                        assert(views_of(acts@) =~= views_of(acts_pre) + opt_actions(
                            spec_step(pre, b).1,
                        ));
                    }
                },
            }
            proof {
                lemma_run_snoc(p0, data@, i as int);
            }
            i = i + 1;
        }
        proof {
            assert(data@.take(data@.len() as int) =~= data@);
        }
        acts
    }
}

/// The views of a sequence of actions.
pub open spec fn views_of(s: Seq<Action>) -> Seq<ActionView> {
    s.map_values(|a: Action| a@)
}

/// Decodes a completed CSI sequence; see [`spec_decode_csi`].
fn decode_csi(fin: u8, ps: Vec<Option<u16>>, privat: bool) -> (r: Option<Action>)
    ensures
        opt_view(r) == spec_decode_csi(fin, ps@, privat),
{
    let p0 = if ps.len() > 0 {
        ps[0]
    } else {
        None
    };
    let p1 = if ps.len() > 1 {
        ps[1]
    } else {
        None
    };
    if privat && fin != 0x68 && fin != 0x6C {
        None
    } else if fin == 0x41 {
        Some(Action::CursorUp(p0))
    } else if fin == 0x42 {
        Some(Action::CursorDown(p0))
    } else if fin == 0x43 {
        Some(Action::CursorForward(p0))
    } else if fin == 0x44 {
        Some(Action::CursorBack(p0))
    } else if fin == 0x48 || fin == 0x66 {
        Some(Action::CursorPosition(p0, p1))
    } else if fin == 0x4A {
        Some(Action::EraseInDisplay(p0))
    } else if fin == 0x4B {
        Some(Action::EraseInLine(p0))
    } else if fin == 0x6D {
        Some(Action::SetGraphicRendition(ps))
    } else if fin == 0x53 {
        Some(Action::ScrollUp(p0))
    } else if fin == 0x54 {
        Some(Action::ScrollDown(p0))
    } else if fin == 0x72 {
        Some(Action::SetScrollRegion(p0, p1))
    } else if fin == 0x73 {
        Some(Action::SaveCursor)
    } else if fin == 0x75 {
        Some(Action::RestoreCursor)
    } else if fin == 0x68 {
        Some(Action::SetMode(privat, p0))
    } else if fin == 0x6C {
        Some(Action::ResetMode(privat, p0))
    } else {
        None
    }
}

/// A character that reaches the screen as itself: its value is at least
/// 0x20 and it is not DEL. The UTF-8 encoding of a sequence of such
/// characters contains no escape or control bytes.
pub open spec fn is_printable_char(c: char) -> bool {
    (c as u32) >= 0x20 && (c as u32) != 0x7F
}

proof fn lemma_run_one(p: ParserModel, b1: u8)
    ensures
        run_state(p, seq![b1]) == spec_step(p, b1).0,
        run_actions(p, seq![b1]) == opt_actions(spec_step(p, b1).1),
{
    let bytes = seq![b1];
    assert(bytes.drop_first().len() == 0);
    assert(run_state(p, bytes) == run_state(spec_step(p, b1).0, bytes.drop_first()));
    assert(run_actions(spec_step(p, b1).0, bytes.drop_first()) =~= Seq::<ActionView>::empty());
    assert(run_actions(p, bytes) =~= opt_actions(spec_step(p, b1).1));
}

proof fn lemma_run_many(p: ParserModel, bytes: Seq<u8>, b: u8)
    ensures
        run_state(p, bytes.push(b)) == spec_step(run_state(p, bytes), b).0,
        run_actions(p, bytes.push(b)) == run_actions(p, bytes) + opt_actions(
            spec_step(run_state(p, bytes), b).1,
        ),
{
    assert(bytes.push(b) =~= bytes + seq![b]);
    lemma_feed_chunk_invariance(p, bytes, seq![b]);
    lemma_run_one(run_state(p, bytes), b);
}

proof fn lemma_utf8_width_1_bits(s: u32)
    by (bit_vector)
    requires
        0x20 <= s <= 0x7F,
        s != 0x7F,
    ensures
        ((s & 0x7F) as u8) as u32 == s,
        0x20 <= ((s & 0x7F) as u8) <= 0x7E,
{
}

proof fn lemma_utf8_width_2_bits(s: u32)
    by (bit_vector)
    requires
        0x80 <= s <= 0x7FF,
    ensures
        0xC0 <= (0xC0 | (((s >> 6) & 0x1F) as u8)) <= 0xDF,
        0x80 <= (0x80 | ((s & 0x3F) as u8)) <= 0xBF,
        (((((((0xC0 | (((s >> 6) & 0x1F) as u8))) & 0x1F) as u32) << 6) | ((((0x80 | ((s & 0x3F) as u8))) & 0x3F) as u32))) == s,
{
}

proof fn lemma_utf8_width_3_bits(s: u32)
    by (bit_vector)
    requires
        0x800 <= s <= 0xFFFF,
    ensures
        0xE0 <= (0xE0 | (((s >> 12) & 0x0F) as u8)) <= 0xEF,
        0x80 <= (0x80 | (((s >> 6) & 0x3F) as u8)) <= 0xBF,
        0x80 <= (0x80 | ((s & 0x3F) as u8)) <= 0xBF,
        (((((((((0xE0 | (((s >> 12) & 0x0F) as u8))) & 0x0F) as u32) << 6) | ((((0x80 | (((s >> 6) & 0x3F) as u8))) & 0x3F) as u32)) << 6) | ((((0x80 | ((s & 0x3F) as u8))) & 0x3F) as u32))) == s,
{
}

proof fn lemma_utf8_width_4_bits(s: u32)
    by (bit_vector)
    requires
        0x10000 <= s <= 0x10FFFF,
    ensures
        0xF0 <= (0xF0 | (((s >> 18) & 0x7) as u8)) <= 0xF7,
        0x80 <= (0x80 | (((s >> 12) & 0x3F) as u8)) <= 0xBF,
        0x80 <= (0x80 | (((s >> 6) & 0x3F) as u8)) <= 0xBF,
        0x80 <= (0x80 | ((s & 0x3F) as u8)) <= 0xBF,
        (((((((((((0xF0 | (((s >> 18) & 0x7) as u8))) & 0x07) as u32) << 6) | ((((0x80 | (((s >> 12) & 0x3F) as u8))) & 0x3F) as u32)) << 6) | ((((0x80 | (((s >> 6) & 0x3F) as u8))) & 0x3F) as u32)) << 6) | ((((0x80 | ((s & 0x3F) as u8))) & 0x3F) as u32))) == s,
{
}

/// A ready parser consumes the encoding of one printable character in
/// one pass through the UTF-8 states: exactly one `Print` comes out and
/// the parser returns to the very state it was in.
proof fn lemma_print_one(p: ParserModel, c: char)
    ensures
        ready(p) && is_printable_char(c) ==> run_state(p, vstd::utf8::encode_scalar(c as u32)) == p
            && run_actions(p, vstd::utf8::encode_scalar(c as u32)) =~= seq![ActionView::Print(c)],
{
    if ready(p) && is_printable_char(c) {
        vstd::utf8::char_is_scalar(c);
        let s = c as u32;
        vstd::utf8::char_u32_cast(c, s);
        let bytes = vstd::utf8::encode_scalar(s);
        if s <= 0x7F {
            lemma_utf8_width_1_bits(s);
            let b1 = vstd::utf8::leading_byte_width_1(s);
            assert(bytes =~= seq![b1]);
            lemma_run_one(p, b1);
        } else if s <= 0x7FF {
            lemma_utf8_width_2_bits(s);
            let b1 = vstd::utf8::leading_byte_width_2(s);
            let b2 = vstd::utf8::last_continuation_byte(s);
            assert(bytes =~= seq![b1].push(b2));
            let p1 = spec_step(p, b1).0;
            lemma_run_one(p, b1);
            lemma_run_many(p, seq![b1], b2);
            assert(spec_step(p1, b2).0 == p);
            assert(run_actions(p, bytes) =~= opt_actions(spec_step(p1, b2).1));
        } else if s <= 0xFFFF {
            lemma_utf8_width_3_bits(s);
            let b1 = vstd::utf8::leading_byte_width_3(s);
            let b2 = vstd::utf8::second_last_continuation_byte(s);
            let b3 = vstd::utf8::last_continuation_byte(s);
            assert(bytes =~= seq![b1].push(b2).push(b3));
            let p1 = spec_step(p, b1).0;
            let p2 = spec_step(p1, b2).0;
            lemma_run_one(p, b1);
            lemma_run_many(p, seq![b1], b2);
            lemma_run_many(p, seq![b1].push(b2), b3);
            assert(spec_step(p2, b3).0 == p);
            assert(run_actions(p, bytes) =~= opt_actions(spec_step(p2, b3).1));
        } else {
            lemma_utf8_width_4_bits(s);
            let b1 = vstd::utf8::leading_byte_width_4(s);
            let b2 = vstd::utf8::third_last_continuation_byte(s);
            let b3 = vstd::utf8::second_last_continuation_byte(s);
            let b4 = vstd::utf8::last_continuation_byte(s);
            assert(bytes =~= seq![b1].push(b2).push(b3).push(b4));
            let p1 = spec_step(p, b1).0;
            let p2 = spec_step(p1, b2).0;
            let p3 = spec_step(p2, b3).0;
            lemma_run_one(p, b1);
            lemma_run_many(p, seq![b1], b2);
            lemma_run_many(p, seq![b1].push(b2), b3);
            lemma_run_many(p, seq![b1].push(b2).push(b3), b4);
            assert(spec_step(p3, b4).0 == p);
            assert(run_actions(p, bytes) =~= opt_actions(spec_step(p3, b4).1));
        }
    }
}

/// Plain text comes through verbatim: feeding the UTF-8 encoding of any
/// sequence of printable characters to a ready parser emits exactly one
/// `Print` action per character, in input order, and leaves the parser
/// as it was.
/// One `Print` action per character, in order.
pub open spec fn prints_of(chars: Seq<char>) -> Seq<ActionView>
    decreases chars.len(),
{
    if chars.len() == 0 {
        Seq::empty()
    } else {
        seq![ActionView::Print(chars[0])] + prints_of(chars.drop_first())
    }
}

/// What [`prints_of`] holds at each position.
pub proof fn lemma_prints_of_points(chars: Seq<char>)
    ensures
        prints_of(chars).len() == chars.len(),
        forall|i: int|
            0 <= i < chars.len() ==> prints_of(chars)[i] == ActionView::Print(chars[i]),
    decreases chars.len(),
{
    if chars.len() > 0 {
        lemma_prints_of_points(chars.drop_first());
        let cv: u32 = chars[0] as u32;
        let c0: char = cv as char;
        vstd::utf8::char_u32_cast(chars[0], cv);
        assert(c0 == chars[0]);
        let head = seq![ActionView::Print(c0)];
        let tail = prints_of(chars.drop_first());
        assert(head.len() == 1);
        assert(tail.len() == chars.len() - 1);
        assert(prints_of(chars) == head + tail);
        assert forall|i: int| 0 <= i < chars.len() implies prints_of(chars)[i]
            == ActionView::Print(chars[i]) by {
            assert((head + tail)[i] == if i < 1 {
                head[i]
            } else {
                tail[i - 1]
            });
            if i > 0 {
                assert(chars.drop_first()[i - 1] == chars[i]);
            }
        }
    }
}

pub proof fn lemma_plain_text_prints(p: ParserModel, chars: Seq<char>)
    requires
        ready(p),
        forall|i: int| 0 <= i < chars.len() ==> is_printable_char(#[trigger] chars[i]),
    ensures
        run_state(p, vstd::utf8::encode_utf8(chars)) == p,
        run_actions(p, vstd::utf8::encode_utf8(chars)) == prints_of(chars),
    decreases chars.len(),
{
    if chars.len() == 0 {
        assert(vstd::utf8::encode_utf8(chars) =~= Seq::<u8>::empty());
    } else {
        let cv: u32 = chars[0] as u32;
        let c: char = cv as char;
        vstd::utf8::char_u32_cast(chars[0], cv);
        assert(c == chars[0]);
        let enc0 = vstd::utf8::encode_scalar(c as u32);
        let rest = vstd::utf8::encode_utf8(chars.drop_first());
        assert(vstd::utf8::encode_utf8(chars) == enc0 + rest);
        lemma_feed_chunk_invariance(p, enc0, rest);
        lemma_print_one(p, c);
        lemma_plain_text_prints(p, chars.drop_first());
        assert(prints_of(chars) =~= seq![ActionView::Print(c)] + prints_of(chars.drop_first()));
    }
}

/// Dispatches a completed OSC string; see [`spec_dispatch_osc`].
fn dispatch_osc(osc: &Vec<u8>) -> (r: Option<Action>)
    ensures
        opt_view(r) == spec_dispatch_osc(osc@),
{
    if osc.len() >= 2 && (osc[0] == 0x30 || osc[0] == 0x31 || osc[0] == 0x32) && osc[1] == 0x3B {
        let mut title: Vec<u8> = Vec::new();
        let mut i: usize = 2;
        while i < osc.len()
            invariant
                2 <= i <= osc@.len(),
                osc@.len() >= 2,
                title@ == osc@.subrange(2, i as int),
            decreases osc@.len() - i,
        {
            title.push(osc[i]);
            proof {
                assert(title@ =~= osc@.subrange(2, i + 1 as int));
            }
            i = i + 1;
        }
        Some(Action::WindowTitle(title))
    } else {
        None
    }
}

} // verus!
