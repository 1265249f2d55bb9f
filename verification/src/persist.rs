//! The persisted-state snapshot format.
//!
//! A snapshot is one JSON object with exactly three members, in this order
//! and without surrounding whitespace:
//! `{"program_state":<name>,"game_state":<name>,"last_updated":<seconds>}`,
//! where the names are the canonical state names in string quotes and the
//! seconds are a decimal `u64` without sign or leading zeros.  The renderer
//! emits exactly this form and the parser accepts exactly this form, so a
//! round trip restores the state unchanged.

use crate::state::AppState;
use crate::state::GameState;
use crate::state::ProgramState;
use vstd::prelude::*;

verus! {

/// `{"program_state":"`
pub open spec fn head_seq() -> Seq<u8> {
    seq![123u8, 34u8, 112u8, 114u8, 111u8, 103u8, 114u8, 97u8, 109u8, 95u8, 115u8, 116u8, 97u8, 116u8, 101u8, 34u8, 58u8, 34u8]
}

/// `","game_state":"`
pub open spec fn mid_seq() -> Seq<u8> {
    seq![34u8, 44u8, 34u8, 103u8, 97u8, 109u8, 101u8, 95u8, 115u8, 116u8, 97u8, 116u8, 101u8, 34u8, 58u8, 34u8]
}

/// `","last_updated":`
pub open spec fn tail_seq() -> Seq<u8> {
    seq![34u8, 44u8, 34u8, 108u8, 97u8, 115u8, 116u8, 95u8, 117u8, 112u8, 100u8, 97u8, 116u8, 101u8, 100u8, 34u8, 58u8]
}

pub open spec fn prog_seq(p: ProgramState) -> Seq<u8> {
    match p {
        ProgramState::Stopped => seq![83u8, 116u8, 111u8, 112u8, 112u8, 101u8, 100u8],
        ProgramState::Starting => seq![83u8, 116u8, 97u8, 114u8, 116u8, 105u8, 110u8, 103u8],
        ProgramState::Running => seq![82u8, 117u8, 110u8, 110u8, 105u8, 110u8, 103u8],
        ProgramState::Stopping => seq![83u8, 116u8, 111u8, 112u8, 112u8, 105u8, 110u8, 103u8],
    }
}

pub open spec fn game_seq(g: GameState) -> Seq<u8> {
    match g {
        GameState::NotDetected => seq![78u8, 111u8, 116u8, 68u8, 101u8, 116u8, 101u8, 99u8, 116u8, 101u8, 100u8],
        GameState::Detected => seq![68u8, 101u8, 116u8, 101u8, 99u8, 116u8, 101u8, 100u8],
        GameState::InBattle => seq![73u8, 110u8, 66u8, 97u8, 116u8, 116u8, 108u8, 101u8],
    }
}

/// The decimal digits of `n`, most significant first, without leading
/// zeros (a single `0` for zero).
pub open spec fn dec_digits(n: nat) -> Seq<u8>
    decreases n,
{
    if n < 10 {
        seq![(48 + n) as u8]
    } else {
        dec_digits(n / 10) + seq![(48 + n % 10) as u8]
    }
}

/// The canonical snapshot bytes of a state.
pub open spec fn spec_render(s: AppState) -> Seq<u8> {
    head_seq() + prog_seq(s.program_state) + mid_seq() + game_seq(s.game_state) + tail_seq()
        + dec_digits(s.last_updated as nat) + seq![125u8]
}

fn head_bytes() -> (a: [u8; 18])
    ensures
        a@ == head_seq(),
{
    let a: [u8; 18] = [123u8, 34u8, 112u8, 114u8, 111u8, 103u8, 114u8, 97u8, 109u8, 95u8, 115u8, 116u8, 97u8, 116u8, 101u8, 34u8, 58u8, 34u8];
    proof {
        assert(a@ =~= head_seq());
    }
    a
}

fn mid_bytes() -> (a: [u8; 16])
    ensures
        a@ == mid_seq(),
{
    let a: [u8; 16] = [34u8, 44u8, 34u8, 103u8, 97u8, 109u8, 101u8, 95u8, 115u8, 116u8, 97u8, 116u8, 101u8, 34u8, 58u8, 34u8];
    proof {
        assert(a@ =~= mid_seq());
    }
    a
}

fn tail_bytes() -> (a: [u8; 17])
    ensures
        a@ == tail_seq(),
{
    let a: [u8; 17] = [34u8, 44u8, 34u8, 108u8, 97u8, 115u8, 116u8, 95u8, 117u8, 112u8, 100u8, 97u8, 116u8, 101u8, 100u8, 34u8, 58u8];
    proof {
        assert(a@ =~= tail_seq());
    }
    a
}

/// Append a fixed pattern to the output.
fn append_bytes<const N: usize>(out: &mut Vec<u8>, pat: &[u8; N])
    ensures
        final(out)@ == old(out)@ + pat@,
{
    let mut i: usize = 0;
    while i < N
        invariant
            i <= N,
            out@ == old(out)@ + pat@.subrange(0, i as int),
        decreases N - i,
    {
        out.push(pat[i]);
        proof {
            assert(out@ =~= old(out)@ + pat@.subrange(0, i + 1 as int));
        }
        i = i + 1;
    }
    proof {
        assert(pat@.subrange(0, N as int) =~= pat@);
    }
}

/// Append the decimal digits of `n`.
fn append_digits(out: &mut Vec<u8>, n: u64)
    ensures
        final(out)@ == old(out)@ + dec_digits(n as nat),
    decreases n,
{
    if n < 10 {
        out.push(48 + n as u8);
    } else {
        append_digits(out, n / 10);
        out.push(48 + (n % 10) as u8);
        proof {
            assert(out@ =~= old(out)@ + dec_digits(n as nat));
        }
    }
}

/// Serialize a state into its canonical snapshot bytes.
pub fn render_state(state: &AppState) -> (out: Vec<u8>)
    ensures
        out@ == spec_render(*state),
{
    let mut out: Vec<u8> = Vec::new();
    append_bytes(&mut out, &head_bytes());
    match state.program_state {
        ProgramState::Stopped => {
            append_bytes(&mut out, &[83u8, 116u8, 111u8, 112u8, 112u8, 101u8, 100u8]);
            proof {
                assert([83u8, 116u8, 111u8, 112u8, 112u8, 101u8, 100u8]@ =~= prog_seq(state.program_state));
            }
        },
        ProgramState::Starting => {
            append_bytes(&mut out, &[83u8, 116u8, 97u8, 114u8, 116u8, 105u8, 110u8, 103u8]);
            proof {
                assert([83u8, 116u8, 97u8, 114u8, 116u8, 105u8, 110u8, 103u8]@ =~= prog_seq(state.program_state));
            }
        },
        ProgramState::Running => {
            append_bytes(&mut out, &[82u8, 117u8, 110u8, 110u8, 105u8, 110u8, 103u8]);
            proof {
                assert([82u8, 117u8, 110u8, 110u8, 105u8, 110u8, 103u8]@ =~= prog_seq(state.program_state));
            }
        },
        ProgramState::Stopping => {
            append_bytes(&mut out, &[83u8, 116u8, 111u8, 112u8, 112u8, 105u8, 110u8, 103u8]);
            proof {
                assert([83u8, 116u8, 111u8, 112u8, 112u8, 105u8, 110u8, 103u8]@ =~= prog_seq(state.program_state));
            }
        },
    }
    append_bytes(&mut out, &mid_bytes());
    match state.game_state {
        GameState::NotDetected => {
            append_bytes(&mut out, &[78u8, 111u8, 116u8, 68u8, 101u8, 116u8, 101u8, 99u8, 116u8, 101u8, 100u8]);
            proof {
                assert([78u8, 111u8, 116u8, 68u8, 101u8, 116u8, 101u8, 99u8, 116u8, 101u8, 100u8]@ =~= game_seq(state.game_state));
            }
        },
        GameState::Detected => {
            append_bytes(&mut out, &[68u8, 101u8, 116u8, 101u8, 99u8, 116u8, 101u8, 100u8]);
            proof {
                assert([68u8, 101u8, 116u8, 101u8, 99u8, 116u8, 101u8, 100u8]@ =~= game_seq(state.game_state));
            }
        },
        GameState::InBattle => {
            append_bytes(&mut out, &[73u8, 110u8, 66u8, 97u8, 116u8, 116u8, 108u8, 101u8]);
            proof {
                assert([73u8, 110u8, 66u8, 97u8, 116u8, 116u8, 108u8, 101u8]@ =~= game_seq(state.game_state));
            }
        },
    }
    append_bytes(&mut out, &tail_bytes());
    append_digits(&mut out, state.last_updated);
    out.push(125u8);
    proof {
        assert(out@ =~= spec_render(*state));
    }
    out
}

pub open spec fn is_digit(b: u8) -> bool {
    48 <= b <= 57
}

pub open spec fn all_digits(ds: Seq<u8>) -> bool {
    forall|i: int| 0 <= i < ds.len() ==> is_digit(#[trigger] ds[i])
}

/// The value of a digit sequence, most significant first.
pub open spec fn digits_val(ds: Seq<u8>) -> nat
    decreases ds.len(),
{
    if ds.len() == 0 {
        0
    } else {
        digits_val(ds.drop_last()) * 10 + (ds.last() - 48) as nat
    }
}

/// The decimal rendering of `n` consists of digits, is never empty, never
/// has a leading zero unless it is `0` itself, and evaluates back to `n`.
pub proof fn lemma_dec_digits_props(n: nat)
    ensures
        dec_digits(n).len() >= 1,
        all_digits(dec_digits(n)),
        digits_val(dec_digits(n)) == n,
        n > 0 ==> dec_digits(n)[0] != 48,
    decreases n,
{
    if n < 10 {
        let d = dec_digits(n);
        assert(d.len() == 1);
        assert(d.drop_last() =~= Seq::<u8>::empty());
        assert(digits_val(d.drop_last()) == 0);
        assert(digits_val(d) == (d.last() - 48) as nat);
    } else {
        lemma_dec_digits_props(n / 10);
        let pre = dec_digits(n / 10);
        let whole = dec_digits(n);
        assert(whole =~= pre.push((48 + n % 10) as u8));
        assert(whole.drop_last() =~= pre);
        assert(digits_val(whole) == digits_val(pre) * 10 + n % 10);
        assert(whole[0] == pre[0]);
    }
}

/// The value of a prefix of a digit sequence never exceeds the value of
/// the whole.
pub proof fn lemma_digits_val_prefix(ds: Seq<u8>, k: int)
    requires
        all_digits(ds),
        0 <= k <= ds.len(),
    ensures
        digits_val(ds.subrange(0, k)) <= digits_val(ds),
    decreases ds.len(),
{
    if k == ds.len() {
        assert(ds.subrange(0, k) =~= ds);
    } else {
        let pre = ds.drop_last();
        assert(ds.subrange(0, k) =~= pre.subrange(0, k));
        lemma_digits_val_prefix(pre, k);
        assert(digits_val(pre) * 10 >= digits_val(pre)) by (nonlinear_arith)
            requires digits_val(pre) >= 0;
    }
}

/// Two distinct program states differ at this index of their names.
pub open spec fn prog_diff_index(p1: ProgramState, p2: ProgramState) -> int {
    match (p1, p2) {
        (ProgramState::Stopped, ProgramState::Starting) => 2,
        (ProgramState::Starting, ProgramState::Stopped) => 2,
        (ProgramState::Stopped, ProgramState::Stopping) => 5,
        (ProgramState::Stopping, ProgramState::Stopped) => 5,
        (ProgramState::Starting, ProgramState::Stopping) => 2,
        (ProgramState::Stopping, ProgramState::Starting) => 2,
        _ => 0,
    }
}

/// The snapshot determines every component of the state: positions of the
/// fixed punctuation, the name segments, and the digit segment.
#[verifier::rlimit(100)]
pub proof fn lemma_render_decompose(s: AppState)
    ensures
        ({
            let b = spec_render(s);
            let pl = prog_seq(s.program_state).len() as int;
            let gl = game_seq(s.game_state).len() as int;
            let dl = dec_digits(s.last_updated as nat).len() as int;
            &&& b.len() == 52 + pl + gl + dl
            &&& 7 <= pl <= 8
            &&& 8 <= gl <= 11
            &&& 1 <= dl
            &&& b.subrange(0, 18) == head_seq()
            &&& b.subrange(18, 18 + pl) == prog_seq(s.program_state)
            &&& b.subrange(18 + pl, 34 + pl) == mid_seq()
            &&& b.subrange(34 + pl, 34 + pl + gl) == game_seq(s.game_state)
            &&& b.subrange(34 + pl + gl, 51 + pl + gl) == tail_seq()
            &&& b.subrange(51 + pl + gl, 51 + pl + gl + dl) == dec_digits(s.last_updated as nat)
            &&& b[b.len() - 1] == 125
            &&& b[50 + pl + gl] == 58
        }),
{
    let b = spec_render(s);
    let pl = prog_seq(s.program_state).len() as int;
    let gl = game_seq(s.game_state).len() as int;
    let dl = dec_digits(s.last_updated as nat).len() as int;
    lemma_dec_digits_props(s.last_updated as nat);
    assert(b.subrange(0, 18) =~= head_seq());
    assert(b.subrange(18, 18 + pl) =~= prog_seq(s.program_state));
    assert(b.subrange(18 + pl, 34 + pl) =~= mid_seq());
    assert(b.subrange(34 + pl, 34 + pl + gl) =~= game_seq(s.game_state));
    assert(b.subrange(34 + pl + gl, 51 + pl + gl) =~= tail_seq());
    assert(b.subrange(51 + pl + gl, 51 + pl + gl + dl) =~= dec_digits(s.last_updated as nat));
    assert(b[50 + pl + gl] == tail_seq()[16]);
}

/// Two snapshots that agree byte for byte were written by the same
/// program state.
#[verifier::rlimit(100)]
proof fn lemma_render_same_program(s1: AppState, s2: AppState)
    requires
        spec_render(s1) == spec_render(s2),
    ensures
        s1.program_state == s2.program_state,
{
    if s1.program_state != s2.program_state {
        let b = spec_render(s1);
        lemma_render_decompose(s1);
        lemma_render_decompose(s2);
        let pl1 = prog_seq(s1.program_state).len() as int;
        let pl2 = prog_seq(s2.program_state).len() as int;
        let i = prog_diff_index(s1.program_state, s2.program_state);
        assert(0 <= i < pl1 && 0 <= i < pl2);
        assert(b[18 + i] == b.subrange(18, 18 + pl1)[i]);
        assert(b[18 + i] == b.subrange(18, 18 + pl2)[i]);
        assert(prog_seq(s1.program_state)[i] != prog_seq(s2.program_state)[i]);
        assert(false);
    }
}

/// The first byte of the game-state name inside a snapshot.
proof fn lemma_render_game_first_byte(s: AppState)
    ensures
        spec_render(s)[34 + prog_seq(s.program_state).len() as int] == game_seq(s.game_state)[0],
        game_seq(s.game_state).len() > 0,
{
    let pl = prog_seq(s.program_state).len() as int;
    let a1 = head_seq() + prog_seq(s.program_state);
    let a2 = a1 + mid_seq();
    let a3 = a2 + game_seq(s.game_state);
    let a4 = a3 + tail_seq();
    let a5 = a4 + dec_digits(s.last_updated as nat);
    assert(spec_render(s) == a5 + seq![125u8]);
    assert(spec_render(s)[34 + pl] == a5[34 + pl]);
    assert(a5[34 + pl] == a4[34 + pl]);
    assert(a4[34 + pl] == a3[34 + pl]);
    assert(a3[34 + pl] == game_seq(s.game_state)[0]);
}

/// Two snapshots that agree byte for byte were written by the same game
/// state.
proof fn lemma_render_same_game(s1: AppState, s2: AppState)
    requires
        spec_render(s1) == spec_render(s2),
        s1.program_state == s2.program_state,
    ensures
        s1.game_state == s2.game_state,
{
    if s1.game_state != s2.game_state {
        lemma_render_game_first_byte(s1);
        lemma_render_game_first_byte(s2);
        assert(game_seq(s1.game_state)[0] != game_seq(s2.game_state)[0]);
        assert(false);
    }
}

/// Law: the snapshot format is injective — two states with the same
/// snapshot bytes are the same state, so a saved snapshot identifies the
/// state that wrote it.
#[verifier::rlimit(100)]
pub proof fn lemma_render_injective(s1: AppState, s2: AppState)
    requires
        spec_render(s1) == spec_render(s2),
    ensures
        s1 == s2,
{
    lemma_render_same_program(s1, s2);
    lemma_render_same_game(s1, s2);
    let b = spec_render(s1);
    lemma_render_decompose(s1);
    lemma_render_decompose(s2);
    let pl = prog_seq(s1.program_state).len() as int;
    let gl = game_seq(s1.game_state).len() as int;
    let dl1 = dec_digits(s1.last_updated as nat).len() as int;
    let dl2 = dec_digits(s2.last_updated as nat).len() as int;
    assert(dl1 == dl2);
    assert(dec_digits(s1.last_updated as nat) == dec_digits(s2.last_updated as nat));
    lemma_dec_digits_props(s1.last_updated as nat);
    lemma_dec_digits_props(s2.last_updated as nat);
    assert(s1.last_updated == s2.last_updated);
}

fn is_digit_b(b: u8) -> (r: bool)
    ensures
        r == is_digit(b),
{
    48 <= b && b <= 57
}

fn vec_eq(a: &Vec<u8>, b: &Vec<u8>) -> (r: bool)
    ensures
        r == (a@ == b@),
{
    if a.len() != b.len() {
        return false;
    }
    let n = a.len();
    let mut i: usize = 0;
    while i < n
        invariant
            n == a@.len(),
            n == b@.len(),
            i <= n,
            forall|j: int| 0 <= j < i ==> a@[j] == b@[j],
        decreases n - i,
    {
        if a[i] != b[i] {
            return false;
        }
        i = i + 1;
    }
    proof {
        assert(a@ =~= b@);
    }
    true
}

spec fn prog_of_spec(i: int) -> ProgramState {
    if i == 0 {
        ProgramState::Stopped
    } else if i == 1 {
        ProgramState::Starting
    } else if i == 2 {
        ProgramState::Running
    } else {
        ProgramState::Stopping
    }
}

spec fn game_of_spec(i: int) -> GameState {
    if i == 0 {
        GameState::NotDetected
    } else if i == 1 {
        GameState::Detected
    } else {
        GameState::InBattle
    }
}

fn prog_of(i: usize) -> (p: ProgramState)
    requires
        i < 4,
    ensures
        p == prog_of_spec(i as int),
{
    if i == 0 {
        ProgramState::Stopped
    } else if i == 1 {
        ProgramState::Starting
    } else if i == 2 {
        ProgramState::Running
    } else {
        ProgramState::Stopping
    }
}

fn game_of(i: usize) -> (g: GameState)
    requires
        i < 3,
    ensures
        g == game_of_spec(i as int),
{
    if i == 0 {
        GameState::NotDetected
    } else if i == 1 {
        GameState::Detected
    } else {
        GameState::InBattle
    }
}

/// Deserialize snapshot bytes.  Exactly the canonical renderings are
/// accepted: the result is `Some(s)` precisely when the input is the
/// snapshot of `s`, so a save followed by a load restores the state
/// unchanged, and nothing else is ever accepted.
pub fn parse_state(bytes: &Vec<u8>) -> (r: Option<AppState>)
    ensures
        r matches Some(s) ==> bytes@ == spec_render(s),
        forall|s: AppState| bytes@ == spec_render(s) ==> r == Some(s),
{
    let n = bytes.len();
    if n < 2 {
        proof {
            assert forall|s: AppState| bytes@ != spec_render(s) by {
                lemma_render_decompose(s);
            }
        }
        return None;
    }
    if bytes[n - 1] != 125 {
        proof {
            assert forall|s: AppState| bytes@ != spec_render(s) by {
                lemma_render_decompose(s);
            }
        }
        return None;
    }
    // Find the digit run that ends just before the closing brace.
    let mut dstart: usize = n - 1;
    while dstart > 0 && is_digit_b(bytes[dstart - 1])
        invariant
            dstart <= n - 1,
            n == bytes@.len(),
            forall|j: int| dstart <= j < n - 1 ==> is_digit(#[trigger] bytes@[j]),
        decreases dstart,
    {
        dstart = dstart - 1;
    }
    let ghost boundary_ok = dstart == 0 || !is_digit(bytes@[dstart as int - 1]);
    proof {
        assert(boundary_ok);
        assert forall|k: int| 0 <= k < n - 1 - dstart
            implies is_digit(#[trigger] bytes@.subrange(dstart as int, n - 1)[k]) by {
            assert(bytes@.subrange(dstart as int, n - 1)[k] == bytes@[dstart + k]);
        }
        assert(all_digits(bytes@.subrange(dstart as int, n - 1)));
    }
    if dstart == n - 1 {
        proof {
            assert forall|s: AppState| bytes@ != spec_render(s) by {
                if bytes@ == spec_render(s) {
                    lemma_render_decompose(s);
                    lemma_dec_digits_props(s.last_updated as nat);
                    let pl = prog_seq(s.program_state).len() as int;
                    let gl = game_seq(s.game_state).len() as int;
                    let dl = dec_digits(s.last_updated as nat).len() as int;
                    assert(bytes@[n - 2] == bytes@.subrange(51 + pl + gl, 51 + pl + gl + dl)[dl - 1]);
                    assert(is_digit(bytes@[n - 2]));
                }
            }
        }
        return None;
    }
    // On a canonical snapshot, the digit run is exactly the rendered value.
    proof {
        assert forall|s: AppState| bytes@ == spec_render(s)
            ==> dstart == 51 + prog_seq(s.program_state).len() + game_seq(s.game_state).len()
                && bytes@.subrange(dstart as int, n - 1) == dec_digits(s.last_updated as nat) by {
            if bytes@ == spec_render(s) {
                lemma_render_decompose(s);
                lemma_dec_digits_props(s.last_updated as nat);
                let pl = prog_seq(s.program_state).len() as int;
                let gl = game_seq(s.game_state).len() as int;
                let dl = dec_digits(s.last_updated as nat).len() as int;
                let ds = 51 + pl + gl;
                if dstart > ds {
                    assert(is_digit(bytes@[dstart - 1])) by {
                        assert(bytes@[dstart - 1] == bytes@.subrange(ds, ds + dl)[dstart - 1 - ds]);
                    }
                    assert(false);
                }
                if dstart < ds {
                    assert(bytes@[ds - 1] == 58);
                    assert(is_digit(bytes@[ds - 1])) by {
                        assert(bytes@[ds - 1] == bytes@.subrange(dstart as int, n - 1)[ds - 1 - dstart]);
                    }
                    assert(false);
                }
                assert(bytes@.subrange(dstart as int, n - 1) == dec_digits(s.last_updated as nat));
            }
        }
    }
    // Accumulate the value, refusing anything that cannot be a u64.
    let ghost dseq = bytes@.subrange(dstart as int, n - 1);
    let mut acc: u64 = 0;
    let mut i: usize = dstart;
    while i < n - 1
        invariant
            dstart <= i <= n - 1,
            n == bytes@.len(),
            n >= 2,
            dseq == bytes@.subrange(dstart as int, n - 1),
            all_digits(dseq),
            acc as nat == digits_val(dseq.subrange(0, i - dstart)),
            forall|s: AppState| bytes@ == spec_render(s)
                ==> dseq == dec_digits(s.last_updated as nat),
        decreases n - 1 - i,
    {
        let d = bytes[i];
        proof {
            assert(is_digit(dseq[i - dstart]));
            assert(d == dseq[i - dstart]);
        }
        let dv = (d - 48) as u64;
        if acc > (u64::MAX - dv) / 10 {
            proof {
                assert(acc * 10 + dv > u64::MAX) by (nonlinear_arith)
                    requires acc > (u64::MAX - dv) / 10, dv <= 9;
                assert(dseq.subrange(0, i + 1 - dstart) =~= dseq.subrange(0, i - dstart).push(d));
                assert(dseq.subrange(0, i + 1 - dstart).drop_last() =~= dseq.subrange(0, i - dstart));
                assert(digits_val(dseq.subrange(0, i + 1 - dstart)) == acc * 10 + dv);
                assert forall|s: AppState| bytes@ != spec_render(s) by {
                    if bytes@ == spec_render(s) {
                        lemma_dec_digits_props(s.last_updated as nat);
                        lemma_digits_val_prefix(dseq, i + 1 - dstart);
                        assert(digits_val(dseq) == s.last_updated as nat);
                        assert(digits_val(dseq.subrange(0, i + 1 - dstart)) <= s.last_updated as nat);
                        assert(false);
                    }
                }
            }
            return None;
        }
        proof {
            assert(acc * 10 + dv <= u64::MAX) by (nonlinear_arith)
                requires acc <= (u64::MAX - dv) / 10, dv <= 9;
            assert(dseq.subrange(0, i + 1 - dstart) =~= dseq.subrange(0, i - dstart).push(d));
            assert(dseq.subrange(0, i + 1 - dstart).drop_last() =~= dseq.subrange(0, i - dstart));
        }
        acc = acc * 10 + dv;
        i = i + 1;
    }
    proof {
        assert(dseq.subrange(0, n - 1 - dstart) =~= dseq);
    }
    // Try every state whose snapshot could carry this value; the compare
    // against the canonical rendering admits exactly the right one.
    let mut pi: usize = 0;
    while pi < 4
        invariant
            pi <= 4,
            acc as nat == digits_val(dseq),
            dseq == bytes@.subrange(dstart as int, n - 1),
            n == bytes@.len(),
            forall|pj: int, gj: int|
                0 <= pj < pi && 0 <= gj < 3
                    ==> bytes@ != spec_render(
                        AppState {
                            program_state: prog_of_spec(pj),
                            game_state: game_of_spec(gj),
                            last_updated: acc,
                        },
                    ),
        decreases 4 - pi,
    {
        let mut gi: usize = 0;
        while gi < 3
            invariant
                pi < 4,
                gi <= 3,
                acc as nat == digits_val(dseq),
                dseq == bytes@.subrange(dstart as int, n - 1),
                n == bytes@.len(),
                forall|pj: int, gj: int|
                    0 <= pj < pi && 0 <= gj < 3
                        ==> bytes@ != spec_render(
                            AppState {
                                program_state: prog_of_spec(pj),
                                game_state: game_of_spec(gj),
                                last_updated: acc,
                            },
                        ),
                forall|gj: int|
                    0 <= gj < gi
                        ==> bytes@ != spec_render(
                            AppState {
                                program_state: prog_of_spec(pi as int),
                                game_state: game_of_spec(gj),
                                last_updated: acc,
                            },
                        ),
            decreases 3 - gi,
        {
            let candidate = AppState {
                program_state: prog_of(pi),
                game_state: game_of(gi),
                last_updated: acc,
            };
            let rendered = render_state(&candidate);
            if vec_eq(bytes, &rendered) {
                proof {
                    assert forall|s: AppState| bytes@ == spec_render(s) implies Some(candidate) == Some::<AppState>(s) by {
                        lemma_render_injective(candidate, s);
                    }
                }
                return Some(candidate);
            }
            gi = gi + 1;
        }
        pi = pi + 1;
    }
    proof {
        assert forall|s: AppState| bytes@ != spec_render(s) by {
            if bytes@ == spec_render(s) {
                lemma_render_decompose(s);
                lemma_dec_digits_props(s.last_updated as nat);
                assert(dseq == dec_digits(s.last_updated as nat));
                assert(acc == s.last_updated);
                let pj = match s.program_state {
                    ProgramState::Stopped => 0int,
                    ProgramState::Starting => 1int,
                    ProgramState::Running => 2int,
                    ProgramState::Stopping => 3int,
                };
                let gj = match s.game_state {
                    GameState::NotDetected => 0int,
                    GameState::Detected => 1int,
                    GameState::InBattle => 2int,
                };
                assert(prog_of_spec(pj) == s.program_state);
                assert(game_of_spec(gj) == s.game_state);
                assert(AppState {
                    program_state: prog_of_spec(pj),
                    game_state: game_of_spec(gj),
                    last_updated: acc,
                } == s);
                assert(false);
            }
        }
    }
    None
}

} // verus!
