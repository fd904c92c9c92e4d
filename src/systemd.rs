use vstd::prelude::*;
use vstd::utf8::{decode_utf8, valid_utf8};
use crate::paths::starts_with;
use crate::text::occurs_at;

verus! {

/// Why a systemctl call gave no usable answer.
#[derive(PartialEq, Eq, Structural, Clone, Copy, Debug)]
pub enum SystemctlError {
    /// systemctl could not be started or waited for.
    Spawn,
    /// systemctl exited with a failure status.
    Failed,
    /// systemctl succeeded but printed nothing.
    EmptyOutput,
    /// systemctl printed bytes that are not UTF-8.
    InvalidUtf8,
}

/// An operation on one unit.
#[derive(PartialEq, Eq, Structural, Clone, Copy, Debug)]
pub enum UnitOp {
    Status,
    IsActive,
    EnableNow,
    DisableNow,
    Stop,
    Disable,
}

/// The systemctl arguments that perform `op` on `unit`.
pub open spec fn args_of(op: UnitOp, unit: Seq<char>) -> Seq<Seq<char>> {
    match op {
        UnitOp::Status => seq!["status"@, unit],
        UnitOp::IsActive => seq!["is-active"@, unit],
        UnitOp::EnableNow => seq!["enable"@, "--now"@, unit],
        UnitOp::DisableNow => seq!["disable"@, "--now"@, unit],
        UnitOp::Stop => seq!["stop"@, unit],
        UnitOp::Disable => seq!["disable"@, unit],
    }
}

/// Whether `c` has the Unicode `White_Space` property.
pub open spec fn white_space(c: char) -> bool {
    let u = c as int;
    (0x9 <= u <= 0xD) || u == 0x20 || u == 0x85 || u == 0xA0 || u == 0x1680 || (0x2000 <= u
        <= 0x200A) || u == 0x2028 || u == 0x2029 || u == 0x202F || u == 0x205F || u == 0x3000
}

/// `s` without its trailing white space.
pub open spec fn trimmed_end(s: Seq<char>) -> Seq<char>
    decreases s.len(),
{
    if s.len() > 0 && white_space(s.last()) {
        trimmed_end(s.drop_last())
    } else {
        s
    }
}

/// Whether `c` has the Unicode `White_Space` property.
fn is_white_space(c: char) -> (r: bool)
    ensures
        r == white_space(c),
{
    let u = c as u32;
    (0x9 <= u && u <= 0xD) || u == 0x20 || u == 0x85 || u == 0xA0 || u == 0x1680 || (0x2000 <= u
        && u <= 0x200A) || u == 0x2028 || u == 0x2029 || u == 0x202F || u == 0x205F || u == 0x3000
}

/// Relies on `String::from_utf8`: it accepts exactly the valid UTF-8 byte
/// sequences and decodes them.
#[verifier::external_body]
fn utf8_string(bytes: Vec<u8>) -> (r: Option<String>)
    ensures
        r is Some <==> valid_utf8(bytes@),
        r matches Some(s) ==> s@ == decode_utf8(bytes@),
{
    String::from_utf8(bytes).ok()
}

/// The systemctl arguments that perform `op` on `unit`.
pub fn unit_args(op: UnitOp, unit: &str) -> (r: Vec<String>)
    ensures
        r.deep_view() == args_of(op, unit@),
{
    let u = String::from_str(unit);
    let r = match op {
        UnitOp::Status => vec![String::from_str("status"), u],
        UnitOp::IsActive => vec![String::from_str("is-active"), u],
        UnitOp::EnableNow => vec![String::from_str("enable"), String::from_str("--now"), u],
        UnitOp::DisableNow => vec![String::from_str("disable"), String::from_str("--now"), u],
        UnitOp::Stop => vec![String::from_str("stop"), u],
        UnitOp::Disable => vec![String::from_str("disable"), u],
    };
    assert(r.deep_view() =~= args_of(op, unit@));
    r
}

/// What systemctl answered: its standard output as text, when it ran, exited
/// successfully, and printed valid, non-empty UTF-8.
pub open spec fn captured(spawned: bool, exit_success: bool, stdout: Option<Vec<u8>>) -> Result<
    Seq<char>,
    SystemctlError,
> {
    if !spawned {
        Err(SystemctlError::Spawn)
    } else if !exit_success {
        Err(SystemctlError::Failed)
    } else {
        match stdout {
            None => Err(SystemctlError::EmptyOutput),
            Some(b) => if b@.len() == 0 {
                Err(SystemctlError::EmptyOutput)
            } else if !valid_utf8(b@) {
                Err(SystemctlError::InvalidUtf8)
            } else {
                Ok(decode_utf8(b@))
            },
        }
    }
}

/// Interprets a run of systemctl whose output was captured; `stdout` is
/// `None` when it could not be read.
pub fn capture(spawned: bool, exit_success: bool, stdout: Option<Vec<u8>>) -> (r: Result<
    String,
    SystemctlError,
>)
    ensures
        r matches Ok(s) ==> captured(spawned, exit_success, stdout) == Ok::<
            Seq<char>,
            SystemctlError,
        >(s@),
        r matches Err(e) ==> captured(spawned, exit_success, stdout) == Err::<
            Seq<char>,
            SystemctlError,
        >(e),
{
    if !spawned {
        return Err(SystemctlError::Spawn);
    }
    if !exit_success {
        return Err(SystemctlError::Failed);
    }
    match stdout {
        None => Err(SystemctlError::EmptyOutput),
        Some(b) => {
            if b.len() == 0 {
                return Err(SystemctlError::EmptyOutput);
            }
            match utf8_string(b) {
                Some(s) => Ok(s),
                None => Err(SystemctlError::InvalidUtf8),
            }
        },
    }
}

/// Strips trailing white space.
fn trim_end_len(s: &str) -> (n: usize)
    ensures
        n <= s@.len(),
        trimmed_end(s@) == s@.subrange(0, n as int),
{
    let mut n = s.unicode_len();
    assert(s@.subrange(0, n as int) =~= s@);
    while n > 0 && is_white_space(s.get_char(n - 1))
        invariant
            n <= s@.len(),
            trimmed_end(s@) == trimmed_end(s@.subrange(0, n as int)),
        decreases n,
    {
        assert(s@.subrange(0, n as int).drop_last() =~= s@.subrange(0, n - 1));
        n = n - 1;
    }
    n
}

/// Whether `t` is the word `active`.
fn is_active_word(t: &str) -> (r: bool)
    ensures
        r == (t@ == "active"@),
{
    let word = "active";
    proof {
        reveal_strlit("active");
    }
    if t.unicode_len() != 6 {
        return false;
    }
    let mut k: usize = 0;
    while k < 6
        invariant
            t@.len() == 6,
            word@ == "active"@,
            word@.len() == 6,
            k <= 6,
            forall|j: int| 0 <= j < k ==> t@[j] == word@[j],
        decreases 6 - k,
    {
        if t.get_char(k) != word.get_char(k) {
            assert(t@[k as int] != "active"@[k as int]);
            return false;
        }
        k = k + 1;
    }
    assert(t@ =~= "active"@);
    true
}

/// Whether a unit is active, from the captured reply of `systemctl is-active`:
/// the reply, without trailing white space, is exactly `active`.
pub fn is_active(reply: &Result<String, SystemctlError>) -> (r: Result<bool, SystemctlError>)
    ensures
        reply matches Err(e) ==> r == Err::<bool, SystemctlError>(*e),
        reply matches Ok(s) ==> r == Ok::<bool, SystemctlError>(trimmed_end(s@) == "active"@),
{
    match reply {
        Err(e) => Err(*e),
        Ok(s) => {
            let n = trim_end_len(s.as_str());
            let t = s.as_str().substring_char(0, n);
            Ok(is_active_word(t))
        },
    }
}

/// Whether a unit is known to systemd, from the captured reply of
/// `systemctl status`: it is when that call succeeded.
pub fn unit_exists(status_reply: &Result<String, SystemctlError>) -> (r: Result<bool, SystemctlError>)
    ensures
        r == Ok::<bool, SystemctlError>(status_reply is Ok),
{
    Ok(status_reply.is_ok())
}

/// Whether `systemctl enable --now` took effect: it ran and exited successfully.
/// `outcome` is the run's exit status, or why it could not run.
pub fn enable(outcome: Result<bool, SystemctlError>) -> (r: Result<bool, SystemctlError>)
    ensures
        r == Ok::<bool, SystemctlError>(outcome == Ok::<bool, SystemctlError>(true)),
{
    match outcome {
        Ok(true) => Ok(true),
        _ => Ok(false),
    }
}

/// Whether `systemctl disable --now` took effect: it ran and exited successfully.
/// `outcome` is the run's exit status, or why it could not run.
pub fn disable(outcome: Result<bool, SystemctlError>) -> (r: Result<bool, SystemctlError>)
    ensures
        r == Ok::<bool, SystemctlError>(outcome == Ok::<bool, SystemctlError>(true)),
{
    match outcome {
        Ok(true) => Ok(true),
        _ => Ok(false),
    }
}

/// Whether a unit is up, as `systemctl status` reports it.
#[derive(PartialEq, Eq, Structural, Clone, Copy, Debug)]
pub enum ActiveState {
    Active,
    Inactive,
    Failed,
}

/// Whether a unit's process is running.
#[derive(PartialEq, Eq, Structural, Clone, Copy, Debug)]
pub enum SubState {
    Running,
    Dead,
}

/// The state of a unit, reduced to whether it is up and whether it runs.
#[derive(PartialEq, Eq, Structural, Clone, Copy, Debug)]
pub struct UnitState {
    pub active: ActiveState,
    pub sub: SubState,
}

/// Whether `t` begins with `p`.
pub open spec fn has_prefix(t: Seq<char>, p: Seq<char>) -> bool {
    p.len() <= t.len() && t.subrange(0, p.len() as int) == p
}

/// The text that follows the first occurrence of `m` in `t`.
pub open spec fn after_marker(t: Seq<char>, m: Seq<char>) -> Option<Seq<char>>
    decreases t.len(),
{
    if has_prefix(t, m) {
        Some(t.subrange(m.len() as int, t.len() as int))
    } else if t.len() == 0 {
        None
    } else {
        after_marker(t.drop_first(), m)
    }
}

/// A unit's state from the text of its `Active:` field.
pub open spec fn state_of_field(f: Seq<char>) -> Option<UnitState> {
    if has_prefix(f, "active (running)"@) {
        Some(UnitState { active: ActiveState::Active, sub: SubState::Running })
    } else if has_prefix(f, "active "@) {
        Some(UnitState { active: ActiveState::Active, sub: SubState::Dead })
    } else if has_prefix(f, "inactive "@) {
        Some(UnitState { active: ActiveState::Inactive, sub: SubState::Dead })
    } else if has_prefix(f, "failed "@) {
        Some(UnitState { active: ActiveState::Failed, sub: SubState::Dead })
    } else {
        None
    }
}

/// A unit's state from the text that `systemctl status` printed: read from
/// its first `Active:` field, if it has one that names a known state.
pub open spec fn unit_state_of(text: Seq<char>) -> Option<UnitState> {
    match after_marker(text, "Active: "@) {
        Some(f) => state_of_field(f),
        None => None,
    }
}

/// The text after the first occurrence of `m` in `t`.
fn text_after<'a>(t: &'a str, m: &str) -> (r: Option<&'a str>)
    ensures
        r matches Some(f) ==> after_marker(t@, m@) == Some(f@),
        r is None ==> after_marker(t@, m@) is None,
{
    let n = t.unicode_len();
    let mut i: usize = 0;
    assert(t@.subrange(0, n as int) =~= t@);
    loop
        invariant
            n == t@.len(),
            i <= n,
            after_marker(t@, m@) == after_marker(t@.subrange(i as int, n as int), m@),
        decreases n - i,
    {
        let ghost u = t@.subrange(i as int, n as int);
        if occurs_at(t, i, m) {
            assert(u.subrange(0, m@.len() as int) =~= t@.subrange(i as int, i + m@.len()));
            assert(u.subrange(m@.len() as int, u.len() as int) =~= t@.subrange(
                i + m@.len(),
                n as int,
            ));
            return Some(t.substring_char(i + m.unicode_len(), n));
        }
        assert(!has_prefix(u, m@)) by {
            if m@.len() <= u.len() {
                assert(u.subrange(0, m@.len() as int) =~= t@.subrange(i as int, i + m@.len()));
            }
        }
        if i == n {
            return None;
        }
        assert(u.drop_first() =~= t@.subrange(i + 1, n as int));
        i = i + 1;
    }
}

/// A unit's state from the text that `systemctl status` printed, reduced to
/// active, inactive or failed, and running or dead.
pub fn unit_state(text: &str) -> (r: Option<UnitState>)
    ensures
        r == unit_state_of(text@),
{
    let marker = "Active: ";
    let f = match text_after(text, marker) {
        Some(f) => f,
        None => return None,
    };
    if starts_with(f, "active (running)") {
        Some(UnitState { active: ActiveState::Active, sub: SubState::Running })
    } else if starts_with(f, "active ") {
        Some(UnitState { active: ActiveState::Active, sub: SubState::Dead })
    } else if starts_with(f, "inactive ") {
        Some(UnitState { active: ActiveState::Inactive, sub: SubState::Dead })
    } else if starts_with(f, "failed ") {
        Some(UnitState { active: ActiveState::Failed, sub: SubState::Dead })
    } else {
        None
    }
}

} // verus!
