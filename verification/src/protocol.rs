//! The wire protocol: a line of ASCII text is split on whitespace into
//! fields, parsed into a command, and executed against the session's
//! worker. Parsing is a pure function from a byte slice to a command
//! value or a failure; execution tracks the session's offset and writes
//! through the worker's producer-side canvas.

use vstd::prelude::*;
use vstd::string::StringSliceAdditionalSpecFns;

use crate::canvas::CanvasView;
use crate::canvas::Coord;
use crate::canvas::PixelflutImage;
use crate::pixel::spec_parse_rgba;
use crate::pixel::parse_rgba;
use crate::pixel::RGBAPixel;
use crate::state::PixelflutIOWorkerState;
use crate::triple_buffer::lemma_tb_wf_update;
use crate::triple_buffer::TBView;

verus! {

/// Whether `c` is ASCII whitespace: space, tab, line feed, form feed, or
/// carriage return.
pub open spec fn is_space(c: u8) -> bool {
    c == 32 || c == 9 || c == 10 || c == 12 || c == 13
}

fn is_space_byte(c: u8) -> (r: bool)
    ensures
        r == is_space(c),
{
    c == 32 || c == 9 || c == 10 || c == 12 || c == 13
}

/// The whitespace-separated fields of `s`, given that the bytes of a
/// partially read field `cur` come before `s`: empty fields are dropped,
/// so any run of whitespace separates.
pub open spec fn tokens_from(s: Seq<u8>, cur: Seq<u8>) -> Seq<Seq<u8>>
    decreases s.len(),
{
    if s.len() == 0 {
        if cur.len() == 0 {
            Seq::empty()
        } else {
            seq![cur]
        }
    } else if is_space(s[0]) {
        if cur.len() == 0 {
            tokens_from(s.drop_first(), Seq::empty())
        } else {
            seq![cur] + tokens_from(s.drop_first(), Seq::empty())
        }
    } else {
        tokens_from(s.drop_first(), cur.push(s[0]))
    }
}

/// The whitespace-separated fields of `s`, in order, empty fields dropped.
pub open spec fn spec_tokens(s: Seq<u8>) -> Seq<Seq<u8>> {
    tokens_from(s, Seq::empty())
}

/// The byte contents of a sequence of byte vectors.
pub open spec fn views_of(v: Seq<Vec<u8>>) -> Seq<Seq<u8>> {
    Seq::new(v.len(), |i: int| v[i]@)
}

/// Split `s` into its whitespace-separated fields, dropping empty ones.
pub fn break_whitespace(s: &[u8]) -> (toks: Vec<Vec<u8>>)
    ensures
        views_of(toks@) == spec_tokens(s@),
{
    let n: usize = s.len();
    let mut out: Vec<Vec<u8>> = Vec::new();
    let mut cur: Vec<u8> = Vec::new();
    let mut i: usize = 0;
    proof {
        assert(s@.skip(0) =~= s@);
        assert(views_of(out@) =~= Seq::<Seq<u8>>::empty());
        assert(cur@ =~= Seq::<u8>::empty());
        assert(views_of(out@) + tokens_from(s@, cur@) =~= tokens_from(s@, cur@));
    }
    while i < n
        invariant
            i <= n,
            n == s@.len(),
            spec_tokens(s@) == views_of(out@) + tokens_from(s@.skip(i as int), cur@),
        decreases n - i,
    {
        proof {
            assert(s@.skip(i as int)[0] == s@[i as int]);
            assert(s@.skip(i as int).drop_first() =~= s@.skip(i as int + 1));
        }
        let c = s[i];
        if is_space_byte(c) {
            if cur.len() > 0 {
                proof {
                    assert(tokens_from(s@.skip(i as int), cur@) == seq![cur@] + tokens_from(
                        s@.skip(i as int + 1),
                        Seq::empty(),
                    ));
                }
                let ghost old_out = out@;
                let ghost old_cur = cur@;
                out.push(cur);
                cur = Vec::new();
                proof {
                    assert(views_of(out@) =~= views_of(old_out).push(old_cur));
                    assert(views_of(old_out) + (seq![old_cur] + tokens_from(
                        s@.skip(i as int + 1),
                        Seq::empty(),
                    )) =~= views_of(old_out).push(old_cur) + tokens_from(
                        s@.skip(i as int + 1),
                        Seq::empty(),
                    ));
                    assert(cur@ =~= Seq::<u8>::empty());
                }
            } else {
                proof {
                    assert(cur@ =~= Seq::<u8>::empty());
                    assert(tokens_from(s@.skip(i as int), cur@) == tokens_from(
                        s@.skip(i as int + 1),
                        Seq::empty(),
                    ));
                }
            }
        } else {
            cur.push(c);
        }
        i = i + 1;
    }
    proof {
        assert(s@.skip(n as int) =~= Seq::<u8>::empty());
    }
    if cur.len() > 0 {
        let ghost old_out = out@;
        let ghost old_cur = cur@;
        out.push(cur);
        proof {
            assert(views_of(out@) =~= views_of(old_out).push(old_cur));
            assert(views_of(old_out) + seq![old_cur] =~= views_of(old_out).push(old_cur));
        }
    }
    out
}

/// Whether `c` is an ASCII decimal digit.
pub open spec fn is_digit(c: u8) -> bool {
    48 <= c <= 57
}

/// Reading decimal digits from `s` onto the accumulator `acc`: any
/// non-digit byte, or any accumulation that leaves the 32-bit range,
/// fails the whole read.
pub open spec fn atoi_from(s: Seq<u8>, acc: u32) -> Option<u32>
    decreases s.len(),
{
    if s.len() == 0 {
        Some(acc)
    } else if !is_digit(s[0]) {
        None
    } else if acc * 10 + (s[0] - 48) > u32::MAX {
        None
    } else {
        atoi_from(s.drop_first(), (acc * 10 + (s[0] - 48)) as u32)
    }
}

/// What [`atoi_coord`] returns: the decimal value of `s` when `s` is one
/// or more digits and the value fits in 32 bits; empty input, a sign, any
/// other non-digit, or overflow on accumulation fail.
pub open spec fn spec_atoi(s: Seq<u8>) -> Option<u32> {
    if s.len() == 0 {
        None
    } else {
        atoi_from(s, 0)
    }
}

/// Decode a non-negative decimal coordinate; overflow on accumulation is
/// a parse failure, not a silent wraparound.
pub fn atoi_coord(decimal: &[u8]) -> (r: Option<Coord>)
    ensures
        r == spec_atoi(decimal@),
{
    let n: usize = decimal.len();
    if n == 0 {
        return None;
    }
    let mut result: Coord = 0;
    let mut i: usize = 0;
    proof {
        assert(decimal@.skip(0) =~= decimal@);
    }
    while i < n
        invariant
            i <= n,
            n == decimal@.len(),
            n > 0,
            spec_atoi(decimal@) == atoi_from(decimal@.skip(i as int), result),
        decreases n - i,
    {
        proof {
            assert(decimal@.skip(i as int)[0] == decimal@[i as int]);
            assert(decimal@.skip(i as int).drop_first() =~= decimal@.skip(i as int + 1));
        }
        let digit = decimal[i];
        if digit >= 48 && digit <= 57 {
            let dec: u32 = (digit - 48) as u32;
            let shifted = match result.checked_mul(10) {
                Some(v) => v,
                None => {
                    return None;
                },
            };
            result = match shifted.checked_add(dec) {
                Some(v) => v,
                None => {
                    return None;
                },
            };
        } else {
            return None;
        }
        i = i + 1;
    }
    proof {
        assert(decimal@.skip(n as int) =~= Seq::<u8>::empty());
    }
    Some(result)
}

/// One parsed protocol command.
#[derive(Clone, Copy, PartialEq, Eq, Structural, Debug)]
pub enum PixelflutCommand {
    Help,
    Size,
    SetPixel { x: Coord, y: Coord, pixel: RGBAPixel },
    Offset { x: Coord, y: Coord },
}

/// Whether the byte slices `a` and `b` hold the same bytes.
fn bytes_eq(a: &[u8], b: &[u8]) -> (r: bool)
    ensures
        r == (a@ == b@),
{
    let n: usize = a.len();
    if n != b.len() {
        return false;
    }
    let mut i: usize = 0;
    while i < n
        invariant
            i <= n,
            n == a@.len(),
            n == b@.len(),
            forall|j: int| 0 <= j < i ==> a@[j] == b@[j],
        decreases n - i,
    {
        if a[i] != b[i] {
            return false;
        }
        i = i + 1;
    }
    proof {
        assert(a@ =~= b@);
    }
    true
}

/// Whether the field `t` is exactly the keyword `kw`.
fn token_is(t: &[u8], kw: &str) -> (r: bool)
    ensures
        r == (t@ == kw.spec_bytes()),
{
    bytes_eq(t, kw.as_bytes())
}

/// What [`parse_pixelflut_request`] returns. Command keywords are
/// case-sensitive; fields beyond the ones a command consumes are
/// ignored; a missing field, an unknown keyword, or a field that fails
/// its own decoding fails the line.
pub open spec fn spec_parse_request(line: Seq<u8>) -> Option<PixelflutCommand> {
    let t = spec_tokens(line);
    if t.len() == 0 {
        None
    } else if t[0] == "PX".spec_bytes() {
        if t.len() < 4 {
            None
        } else {
            match (spec_atoi(t[1]), spec_atoi(t[2]), spec_parse_rgba(t[3])) {
                (Some(x), Some(y), Some(pixel)) => Some(
                    PixelflutCommand::SetPixel { x, y, pixel },
                ),
                _ => None,
            }
        }
    } else if t[0] == "SIZE".spec_bytes() {
        Some(PixelflutCommand::Size)
    } else if t[0] == "HELP".spec_bytes() {
        Some(PixelflutCommand::Help)
    } else if t[0] == "OFFSET".spec_bytes() {
        if t.len() < 3 {
            None
        } else {
            match (spec_atoi(t[1]), spec_atoi(t[2])) {
                (Some(x), Some(y)) => Some(PixelflutCommand::Offset { x, y }),
                _ => None,
            }
        }
    } else {
        None
    }
}

/// Parse one line into a command: the first whitespace-separated field
/// picks the command, the following fields carry its arguments.
pub fn parse_pixelflut_request(line: &[u8]) -> (r: Option<PixelflutCommand>)
    ensures
        r == spec_parse_request(line@),
{
    let toks = break_whitespace(line);
    let ghost t = spec_tokens(line@);
    if toks.len() == 0 {
        return None;
    }
    proof {
        assert(forall|j: int| 0 <= j < toks@.len() ==> views_of(toks@)[j] == #[trigger] toks@[j]@);
    }
    let subcommand: &[u8] = toks[0].as_slice();
    if token_is(subcommand, "PX") {
        if toks.len() < 4 {
            return None;
        }
        let r_rgba = match parse_rgba(toks[3].as_slice()) {
            Some(v) => v,
            None => {
                return None;
            },
        };
        let r_x = match atoi_coord(toks[1].as_slice()) {
            Some(v) => v,
            None => {
                return None;
            },
        };
        let r_y = match atoi_coord(toks[2].as_slice()) {
            Some(v) => v,
            None => {
                return None;
            },
        };
        Some(PixelflutCommand::SetPixel { x: r_x, y: r_y, pixel: r_rgba })
    } else if token_is(subcommand, "SIZE") {
        Some(PixelflutCommand::Size)
    } else if token_is(subcommand, "HELP") {
        Some(PixelflutCommand::Help)
    } else if token_is(subcommand, "OFFSET") {
        if toks.len() < 3 {
            return None;
        }
        let r_x = match atoi_coord(toks[1].as_slice()) {
            Some(v) => v,
            None => {
                return None;
            },
        };
        let r_y = match atoi_coord(toks[2].as_slice()) {
            Some(v) => v,
            None => {
                return None;
            },
        };
        Some(PixelflutCommand::Offset { x: r_x, y: r_y })
    } else {
        None
    }
}

/// The decimal spelling of `n`, most significant digit first, no sign,
/// no leading zero (a single `0` for zero).
pub open spec fn spec_decimal(n: nat) -> Seq<u8>
    decreases n,
{
    if n < 10 {
        seq![(48 + n) as u8]
    } else {
        spec_decimal(n / 10).push((48 + n % 10) as u8)
    }
}

/// Append the decimal spelling of `n` to `out`.
fn push_decimal(out: &mut Vec<u8>, n: u32)
    ensures
        final(out)@ == old(out)@ + spec_decimal(n as nat),
    decreases n,
{
    if n >= 10 {
        push_decimal(out, n / 10);
    }
    out.push(48 + (n % 10) as u8);
    proof {
        if n < 10 {
            assert(old(out)@ + spec_decimal(n as nat) =~= old(out)@.push((48 + n as nat) as u8));
        } else {
            assert(old(out)@ + spec_decimal(n as nat) =~= (old(out)@ + spec_decimal(
                (n / 10) as nat,
            )).push((48 + n as nat % 10) as u8));
        }
    }
}

/// Append the bytes of `b` to `out`.
fn push_bytes(out: &mut Vec<u8>, b: &[u8])
    ensures
        final(out)@ == old(out)@ + b@,
{
    let n: usize = b.len();
    let mut i: usize = 0;
    while i < n
        invariant
            i <= n,
            n == b@.len(),
            out@ == old(out)@ + b@.take(i as int),
        decreases n - i,
    {
        out.push(b[i]);
        proof {
            assert(old(out)@ + b@.take(i as int) + seq![b@[i as int]] =~= old(out)@ + b@.take(
                i as int + 1,
            ));
        }
        i = i + 1;
    }
    proof {
        assert(b@.take(n as int) =~= b@);
    }
}

/// The response to `HELP`: static usage text, terminated `\r\n`.
pub open spec fn spec_help_text() -> Seq<u8> {
    "Commands:\nPX <x> <y> <RGB|RRGGBB|RRGGBBAA hex color>: set the pixel\nOFFSET <x> <y>: add an offset to all following PX coordinates\nSIZE: report the canvas size\nHELP: this text\r\n".spec_bytes()
}

/// The response to `SIZE` on a canvas of the given geometry.
pub open spec fn spec_size_response(width: Coord, height: Coord) -> Seq<u8> {
    "SIZE ".spec_bytes() + spec_decimal(width as nat) + " ".spec_bytes() + spec_decimal(
        height as nat,
    ) + "\r\n".spec_bytes()
}

/// The response to a `PX` whose translated coordinate falls outside the
/// canvas.
pub open spec fn spec_oob_error() -> Seq<u8> {
    "error: pixel out of bounds\r\n".spec_bytes()
}

/// The response to a line that parses to no command; the offending line
/// is echoed between the quotes.
pub open spec fn spec_syntax_error(line: Seq<u8>) -> Seq<u8> {
    "error: syntax error or unknown command '".spec_bytes() + line + "'\r\n".spec_bytes()
}

/// The response to a line longer than the fixed bound: the line is
/// discarded, the connection stays open.
pub open spec fn spec_too_long_error() -> Seq<u8> {
    "error: line too long (discarding)\r\n".spec_bytes()
}

/// Build the `HELP` response.
pub fn help_text() -> (v: Vec<u8>)
    ensures
        v@ == spec_help_text(),
{
    let mut v: Vec<u8> = Vec::new();
    push_bytes(
        &mut v,
        "Commands:\nPX <x> <y> <RGB|RRGGBB|RRGGBBAA hex color>: set the pixel\nOFFSET <x> <y>: add an offset to all following PX coordinates\nSIZE: report the canvas size\nHELP: this text\r\n".as_bytes(),
    );
    proof {
        assert(v@ =~= spec_help_text());
    }
    v
}

/// Build the `SIZE` response for the given geometry.
pub fn size_response(width: Coord, height: Coord) -> (v: Vec<u8>)
    ensures
        v@ == spec_size_response(width, height),
{
    let mut v: Vec<u8> = Vec::new();
    push_bytes(&mut v, "SIZE ".as_bytes());
    push_decimal(&mut v, width);
    push_bytes(&mut v, " ".as_bytes());
    push_decimal(&mut v, height);
    push_bytes(&mut v, "\r\n".as_bytes());
    proof {
        assert(v@ =~= spec_size_response(width, height));
    }
    v
}

/// Build the out-of-bounds error response.
pub fn oob_error() -> (v: Vec<u8>)
    ensures
        v@ == spec_oob_error(),
{
    let mut v: Vec<u8> = Vec::new();
    push_bytes(&mut v, "error: pixel out of bounds\r\n".as_bytes());
    proof {
        assert(v@ =~= spec_oob_error());
    }
    v
}

/// Build the syntax error response, echoing the offending line.
pub fn syntax_error(line: &[u8]) -> (v: Vec<u8>)
    ensures
        v@ == spec_syntax_error(line@),
{
    let mut v: Vec<u8> = Vec::new();
    push_bytes(&mut v, "error: syntax error or unknown command '".as_bytes());
    push_bytes(&mut v, line);
    push_bytes(&mut v, "'\r\n".as_bytes());
    proof {
        assert(v@ =~= spec_syntax_error(line@));
    }
    v
}

/// Build the line-too-long error response.
pub fn line_too_long_error() -> (v: Vec<u8>)
    ensures
        v@ == spec_too_long_error(),
{
    let mut v: Vec<u8> = Vec::new();
    push_bytes(&mut v, "error: line too long (discarding)\r\n".as_bytes());
    proof {
        assert(v@ =~= spec_too_long_error());
    }
    v
}

/// The byte contents of an optional response.
pub open spec fn opt_view(r: Option<Vec<u8>>) -> Option<Seq<u8>> {
    match r {
        Some(v) => Some(v@),
        None => None,
    }
}

/// One client session: the offset set by `OFFSET`, applied to every
/// following `PX`. The connection itself lives outside this crate; a
/// session is created when a connection is accepted and dropped when it
/// closes.
pub struct PixelflutClient {
    pub base_x: Coord,
    pub base_y: Coord,
}

/// Whether the `PX` coordinate `(x, y)`, translated by the session
/// offset without wrapping, lands on the canvas `img`.
pub open spec fn spec_in_bounds_translated(
    c: PixelflutClient,
    img: CanvasView,
    x: Coord,
    y: Coord,
) -> bool {
    &&& x + c.base_x <= u32::MAX
    &&& y + c.base_y <= u32::MAX
    &&& img.in_bounds(x + c.base_x, y + c.base_y)
}

/// How one command changes the session, the worker, and what it answers:
/// `HELP` and `SIZE` answer text and change nothing; `OFFSET` stores the
/// new offset silently; `PX` writes the translated pixel into the
/// worker's producer-slot canvas and stays silent, or answers the
/// out-of-bounds error and changes nothing.
pub open spec fn execute_rel(
    pre: PixelflutClient,
    pre_w: PixelflutIOWorkerState,
    cmd: PixelflutCommand,
    post: PixelflutClient,
    post_w: PixelflutIOWorkerState,
    resp: Option<Seq<u8>>,
) -> bool {
    match cmd {
        PixelflutCommand::Help => {
            &&& post == pre
            &&& post_w == pre_w
            &&& resp == Some(spec_help_text())
        },
        PixelflutCommand::Size => {
            &&& post == pre
            &&& post_w == pre_w
            &&& resp == Some(
                spec_size_response(pre_w.global_config.width, pre_w.global_config.height),
            )
        },
        PixelflutCommand::SetPixel { x, y, pixel } => {
            &&& post == pre
            &&& if spec_in_bounds_translated(pre, pre_w.my_present_queue@.producer(), x, y) {
                let tb = pre_w.my_present_queue@;
                &&& resp is None
                &&& post_w.global_config == pre_w.global_config
                &&& post_w.my_present_queue@ == (TBView {
                    slots: tb.slots.update(
                        tb.producer_index(),
                        tb.producer().write(x + pre.base_x, y + pre.base_y, pixel),
                    ),
                    ..tb
                })
            } else {
                &&& post_w.global_config == pre_w.global_config
                &&& post_w.my_present_queue@ == pre_w.my_present_queue@
                &&& resp == Some(spec_oob_error())
            }
        },
        PixelflutCommand::Offset { x, y } => {
            &&& post == (PixelflutClient { base_x: x, base_y: y })
            &&& post_w == pre_w
            &&& resp is None
        },
    }
}

/// How one received line changes the session and the worker: a line that
/// parses to no command answers the syntax error and changes nothing;
/// otherwise the parsed command runs as in [`execute_rel`].
pub open spec fn dispatch_rel(
    pre: PixelflutClient,
    pre_w: PixelflutIOWorkerState,
    line: Seq<u8>,
    post: PixelflutClient,
    post_w: PixelflutIOWorkerState,
    resp: Option<Seq<u8>>,
) -> bool {
    match spec_parse_request(line) {
        None => {
            &&& post == pre
            &&& post_w == pre_w
            &&& resp == Some(spec_syntax_error(line))
        },
        Some(cmd) => execute_rel(pre, pre_w, cmd, post, post_w, resp),
    }
}

impl PixelflutClient {
    /// A fresh session: offset zero.
    pub fn new() -> (c: PixelflutClient)
        ensures
            c == (PixelflutClient { base_x: 0u32, base_y: 0u32 }),
    {
        PixelflutClient { base_x: 0, base_y: 0 }
    }

    /// Translate `(x, y)` by the session offset with checked additions
    /// and bounds-check the result against `image`.
    fn boundscheck(&self, x: Coord, y: Coord, image: &PixelflutImage) -> (r: Option<
        (Coord, Coord),
    >)
        ensures
            r == if spec_in_bounds_translated(*self, image@, x, y) {
                Some((((x + self.base_x) as u32), ((y + self.base_y) as u32)))
            } else {
                None::<(Coord, Coord)>
            },
    {
        if let Some(real_x) = x.checked_add(self.base_x) {
            if let Some(real_y) = y.checked_add(self.base_y) {
                if image.bounds_check(real_x, real_y) {
                    return Some((real_x, real_y));
                }
            }
        }
        None
    }

    /// Run one command against this session and its worker. The answer,
    /// if any, is the exact byte response owed to the client.
    pub fn execute_command(&mut self, cmd: PixelflutCommand, worker: &mut PixelflutIOWorkerState)
        -> (resp: Option<Vec<u8>>)
        requires
            old(worker).wf(),
        ensures
            final(worker).wf(),
            execute_rel(*old(self), *old(worker), cmd, *final(self), *final(worker), opt_view(resp)),
    {
        match cmd {
            PixelflutCommand::Help => Some(help_text()),
            PixelflutCommand::Size => {
                let w = worker.global_config.width;
                let h = worker.global_config.height;
                Some(size_response(w, h))
            },
            PixelflutCommand::SetPixel { x, y, pixel } => {
                let ghost tb0 = worker.my_present_queue@;
                let image = worker.my_present_queue.producer_buffer();
                match self.boundscheck(x, y, image) {
                    Some((abs_x, abs_y)) => {
                        image.set_pixel(abs_x, abs_y, pixel);
                        proof {
                            lemma_tb_wf_update(
                                tb0,
                                tb0.producer_index(),
                                tb0.producer().write(x + self.base_x, y + self.base_y, pixel),
                            );
                            assert(final(worker).my_present_queue@ =~= (TBView {
                                slots: tb0.slots.update(
                                    tb0.producer_index(),
                                    tb0.producer().write(x + self.base_x, y + self.base_y, pixel),
                                ),
                                ..tb0
                            }));
                        }
                        None
                    },
                    None => {
                        proof {
                            assert(tb0.slots.update(
                                tb0.producer_index(),
                                tb0.producer(),
                            ) =~= tb0.slots);
                            assert(final(worker).my_present_queue@ =~= tb0);
                        }
                        Some(oob_error())
                    },
                }
            },
            PixelflutCommand::Offset { x, y } => {
                self.base_x = x;
                self.base_y = y;
                None
            },
        }
    }

    /// Handle one received line: parse it and run the command, or answer
    /// the syntax error, echoing the line. The connection stays open
    /// either way.
    pub fn dispatch_line(&mut self, line: &[u8], worker: &mut PixelflutIOWorkerState) -> (resp:
        Option<Vec<u8>>)
        requires
            old(worker).wf(),
        ensures
            final(worker).wf(),
            dispatch_rel(
                *old(self),
                *old(worker),
                line@,
                *final(self),
                *final(worker),
                opt_view(resp),
            ),
    {
        match parse_pixelflut_request(line) {
            None => Some(syntax_error(line)),
            Some(cmd) => self.execute_command(cmd, worker),
        }
    }
}

} // verus!
