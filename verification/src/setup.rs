//! The `/setup` flow: the server picks its admin and staff roles in a short-lived
//! session, then confirms.
use vstd::prelude::*;
use crate::session::SessionStore;
use crate::text::{decimal, digit_char, owned};

verus! {

/// One server's setup in progress.
pub struct SetupInstance {
    pub admin_role: Option<u64>,
    pub staff_role: Option<u64>,
    pub guild: u64,
    pub initial_message_token: String,
}

impl SetupInstance {
    /// A setup of server `guild` with no roles chosen yet.
    pub fn new(guild: u64, initial_message_token: String) -> (res: Self)
        ensures
            res.admin_role is None,
            res.staff_role is None,
            res.guild == guild,
            res.initial_message_token == initial_message_token,
    {
        SetupInstance { admin_role: None, staff_role: None, guild, initial_message_token }
    }

    /// Whether the confirm button stays disabled: until both roles are chosen.
    pub fn confirm_disabled(&self) -> (res: bool)
        ensures
            res == (self.admin_role is None || self.staff_role is None),
    {
        self.admin_role.is_none() || self.staff_role.is_none()
    }
}

/// The setups in progress, by setup session ID.
pub struct SetupState {
    pub states: SessionStore<SetupInstance>,
}

/// The value of the decimal digit `c`.
pub open spec fn digit_value(c: char) -> int {
    c as int - '0' as int
}

/// Whether `c` is an ASCII decimal digit.
pub open spec fn is_digit(c: char) -> bool {
    '0' <= c <= '9'
}

/// The number that the digits `s` write in decimal.
pub open spec fn digits_value(s: Seq<char>) -> int
    decreases s.len(),
{
    if s.len() == 0 {
        0
    } else {
        digits_value(s.drop_last()) * 10 + digit_value(s.last())
    }
}

/// The value of `s` as `u64`'s `FromStr` reads it: an optional `+`, then one or more
/// decimal digits whose value fits in a `u64`.
pub open spec fn parse_u64_spec(s: Seq<char>) -> Option<u64> {
    let digits = unsigned_digits(s);
    if digits.len() > 0 && all_digits(digits) && digits_value(digits) <= u64::MAX {
        Some(digits_value(digits) as u64)
    } else {
        None
    }
}

/// `s` without a leading `+`.
pub open spec fn unsigned_digits(s: Seq<char>) -> Seq<char> {
    if s.len() > 0 && s[0] == '+' { s.drop_first() } else { s }
}

/// Whether every character of `s` is a decimal digit.
pub open spec fn all_digits(s: Seq<char>) -> bool {
    forall|i: int| 0 <= i < s.len() ==> is_digit(#[trigger] s[i])
}

proof fn lemma_digits_value_monotone(s: Seq<char>, k: int)
    requires
        0 <= k <= s.len(),
        forall|i: int| 0 <= i < s.len() ==> is_digit(#[trigger] s[i]),
    ensures
        digits_value(s.take(k)) <= digits_value(s),
        0 <= digits_value(s.take(k)),
    decreases s.len(),
{
    if k == s.len() {
        assert(s.take(k) =~= s);
        lemma_digits_value_nonneg(s);
    } else {
        lemma_digits_value_monotone(s.drop_last(), k);
        assert(s.drop_last().take(k) =~= s.take(k));
        lemma_digits_value_nonneg(s.drop_last());
    }
}

proof fn lemma_digits_value_nonneg(s: Seq<char>)
    requires
        forall|i: int| 0 <= i < s.len() ==> is_digit(#[trigger] s[i]),
    ensures
        0 <= digits_value(s),
    decreases s.len(),
{
    if s.len() > 0 {
        lemma_digits_value_nonneg(s.drop_last());
    }
}

/// Reads a `u64` the way `u64`'s `FromStr` does (see `parse_u64_spec`).
pub fn parse_u64(s: &str) -> (res: Option<u64>)
    ensures
        res == parse_u64_spec(s@),
{
    let v = crate::text::chars_of(s);
    let start: usize = if v.len() > 0 && v[0] == '+' { 1 } else { 0 };
    let ghost digits = unsigned_digits(s@);
    assert(digits =~= v@.skip(start as int));
    if start >= v.len() {
        return None;
    }
    let mut value: u64 = 0;
    let mut i: usize = start;
    while i < v.len()
        invariant
            start <= i <= v.len(),
            v@ == s@,
            digits == v@.skip(start as int),
            digits == unsigned_digits(s@),
            forall|j: int| start <= j < i ==> is_digit(#[trigger] v@[j]),
            value == digits_value(v@.subrange(start as int, i as int)),
        decreases v.len() - i,
    {
        let c = v[i];
        proof {
            assert(v@.subrange(start as int, i + 1).drop_last() =~= v@.subrange(start as int, i as int));
        }
        if !('0' <= c && c <= '9') {
            proof {
                assert(digits[i - start] == c);
                assert(!is_digit(digits[i - start]));
                assert(!all_digits(digits));
            }
            return None;
        }
        let d: u64 = (c as u32 - '0' as u32) as u64;
        if value > (u64::MAX - d) / 10 {
            proof {
                // The remaining digits only make the value larger.
                assert(v@.subrange(start as int, i + 1).last() == c);
                assert(digit_value(c) == d);
                assert(digits_value(v@.subrange(start as int, i + 1)) == value * 10 + d);
                assert(value * 10 + d > u64::MAX) by (nonlinear_arith)
                    requires
                        value > (u64::MAX - d) / 10,
                        d <= 9,
                ;
                if all_digits(digits) {
                    assert(v@.subrange(start as int, i + 1) =~= digits.take(i + 1 - start));
                    lemma_digits_value_monotone(digits, i + 1 - start);
                    assert(digits_value(digits) > u64::MAX);
                }
            }
            return None;
        }
        proof {
            assert(value * 10 + d <= u64::MAX) by (nonlinear_arith)
                requires
                    value <= (u64::MAX - d) / 10,
                    d <= 9,
            ;
        }
        value = value * 10 + d;
        i = i + 1;
    }
    proof {
        assert(v@.subrange(start as int, v.len() as int) =~= digits);
        assert forall|j: int| 0 <= j < digits.len() implies is_digit(#[trigger] digits[j]) by {
            assert(digits[j] == v@[j + start]);
        }
        assert(all_digits(digits));
    }
    Some(value)
}

proof fn lemma_decimal_digits(n: nat)
    ensures
        decimal(n).len() > 0,
        all_digits(decimal(n)),
        digits_value(decimal(n)) == n,
    decreases n,
{
    if n < 10 {
        assert(digit_value(digit_char(n)) == n);
        assert(decimal(n).drop_last() =~= Seq::<char>::empty());
        assert(digits_value(Seq::<char>::empty()) == 0);
        assert(decimal(n).last() == digit_char(n));
    } else {
        lemma_decimal_digits(n / 10);
        let d = decimal(n);
        assert(d.drop_last() =~= decimal(n / 10));
        assert(digit_value(digit_char(n % 10)) == n % 10);
        assert(forall|i: int| 0 <= i < d.len() - 1 ==> d[i] == decimal(n / 10)[i]);
        assert(d.last() == digit_char(n % 10));
        assert(digits_value(d) == digits_value(d.drop_last()) * 10 + digit_value(d.last()));
        assert((n / 10) * 10 + n % 10 == n);
    }
}

/// Reading back the decimal writing of a number gives the number: `parse_u64` undoes
/// `decimal_string`.
pub proof fn parse_reads_decimal(n: u64)
    ensures
        parse_u64_spec(decimal(n as nat)) == Some(n),
{
    lemma_decimal_digits(n as nat);
    let d = decimal(n as nat);
    assert(is_digit(d[0]));
    assert(unsigned_digits(d) == d);
}

/// Why a role choice could not be read.
#[derive(Clone, Copy, Debug, PartialEq, Eq, Structural)]
pub struct InvalidRoleId;

/// The role chosen in a role menu whose selected values are `values`: the first value
/// read as an ID, or no role when nothing is selected.
pub fn role_from_menu(values: &Vec<String>) -> (res: Result<Option<u64>, InvalidRoleId>)
    ensures
        values@.len() == 0 ==> res == Ok::<Option<u64>, InvalidRoleId>(None),
        values@.len() > 0 ==> match parse_u64_spec(values@[0]@) {
            Some(n) => res == Ok::<Option<u64>, InvalidRoleId>(Some(n)),
            None => res == Err::<Option<u64>, InvalidRoleId>(InvalidRoleId),
        },
{
    if values.len() == 0 {
        return Ok(None);
    }
    match parse_u64(values[0].as_str()) {
        Some(n) => Ok(Some(n)),
        None => Err(InvalidRoleId),
    }
}

/// Which role a setup menu sets.
#[derive(Clone, Copy, Debug, PartialEq, Eq, Structural)]
pub enum SetupRole {
    Admin,
    Staff,
}

/// What confirming a setup leads to.
pub enum SetupConfirmation {
    /// The session is gone: nothing happens.
    NoSession,
    /// A role is still missing.
    MissingRoles,
    /// Store the server with these roles.
    Ready { guild: u64, admin_role: u64, staff_role: u64 },
}

impl SetupState {
    /// No setups in progress.
    pub fn new() -> (res: Self)
        ensures
            res.states.sessions() == Map::<Seq<char>, SetupInstance>::empty(),
    {
        SetupState { states: SessionStore::new() }
    }

    /// Records the role chosen in a setup menu; hands back whether the confirm button is
    /// then disabled, or `None` when the session is gone (nothing changes then).
    pub fn choose_role(&mut self, setup_id: &String, which: SetupRole, role: Option<u64>) -> (res: Option<bool>)
        ensures
            !old(self).states.sessions().dom().contains(setup_id@) ==> res is None && final(self).states.sessions() == old(self).states.sessions(),
            old(self).states.sessions().dom().contains(setup_id@) ==> {
                let before = old(self).states.sessions()[setup_id@];
                let after = final(self).states.sessions()[setup_id@];
                &&& final(self).states.sessions().dom() == old(self).states.sessions().dom()
                &&& forall|k: Seq<char>| k != setup_id@ && #[trigger] old(self).states.sessions().dom().contains(k)
                    ==> final(self).states.sessions()[k] == old(self).states.sessions()[k]
                &&& after.admin_role == if which == SetupRole::Admin { role } else { before.admin_role }
                &&& after.staff_role == if which == SetupRole::Staff { role } else { before.staff_role }
                &&& after.guild == before.guild
                &&& after.initial_message_token == before.initial_message_token
                &&& res == Some(after.admin_role is None || after.staff_role is None)
            },
    {
        match self.states.remove(setup_id) {
            None => {
                assert(self.states.sessions() =~= old(self).states.sessions());
                None
            },
            Some(mut instance) => {
                match which {
                    SetupRole::Admin => instance.admin_role = role,
                    SetupRole::Staff => instance.staff_role = role,
                }
                let disabled = instance.confirm_disabled();
                self.states.insert(setup_id.clone(), instance);
                assert(self.states.sessions().dom() =~= old(self).states.sessions().dom());
                Some(disabled)
            },
        }
    }

    /// What confirming setup session `setup_id` leads to; the session is kept.
    pub fn confirm(&self, setup_id: &String) -> (res: SetupConfirmation)
        ensures
            !self.states.sessions().dom().contains(setup_id@) ==> res is NoSession,
            self.states.sessions().dom().contains(setup_id@) ==> {
                let s = self.states.sessions()[setup_id@];
                match (s.admin_role, s.staff_role) {
                    (Some(a), Some(st)) => res == (SetupConfirmation::Ready { guild: s.guild, admin_role: a, staff_role: st }),
                    _ => res is MissingRoles,
                }
            },
    {
        match self.states.get(setup_id) {
            None => SetupConfirmation::NoSession,
            Some(instance) => match (instance.admin_role, instance.staff_role) {
                (Some(admin_role), Some(staff_role)) => SetupConfirmation::Ready { guild: instance.guild, admin_role, staff_role },
                _ => SetupConfirmation::MissingRoles,
            },
        }
    }
}

/// The setup session's introduction.
pub fn setup_intro_text() -> (res: String)
    ensures
        res@ == "In order to set up Twilight Sword, we only require a couple pieces of information (but they are required!).\nPlease specify the role given to administrators and the role given to all staff members. (You can change these later (for example, if you change your server's role setup).)\nThese settings are used to help determine who has permissions for various bot-related functionality."@,
{
    owned("In order to set up Twilight Sword, we only require a couple pieces of information (but they are required!).\nPlease specify the role given to administrators and the role given to all staff members. (You can change these later (for example, if you change your server's role setup).)\nThese settings are used to help determine who has permissions for various bot-related functionality.")
}

/// The outcome of storing a new server's settings.
#[derive(Clone, Copy, Debug, PartialEq, Eq, Structural)]
pub enum SetupStoreOutcome {
    Stored,
    AlreadySetUp,
    Failed,
}

/// The answer to a setup step.
#[derive(Clone, Copy, Debug, PartialEq, Eq, Structural)]
pub enum SetupNotice {
    AlreadySetUp,
    MissingRoles,
    Stored,
    StoredElsewhere,
    StoreFailed,
    Canceled,
    TimedOut,
}

/// The text of a setup answer.
pub open spec fn setup_notice_text(n: SetupNotice) -> Seq<char> {
    match n {
        SetupNotice::AlreadySetUp => "The server has already been set up! Use `/settings` to modify settings."@,
        SetupNotice::MissingRoles => "Both roles must be selected to set Twilight Sword."@,
        SetupNotice::Stored => "You've set up Twilight Sword! \u{1F389}\nRemember to use `/settings` to configure other functionality."@,
        SetupNotice::StoredElsewhere => "This server is already set up. Setup may have been completed elsewhere."@,
        SetupNotice::StoreFailed => "An internal error occurred setting up the server."@,
        SetupNotice::Canceled => "Twilight Sword setup canceled."@,
        SetupNotice::TimedOut => "Setup timed out. Run `/setup` again to set up Twilight Sword for your server!"@,
    }
}

/// The text of a setup answer (see `setup_notice_text`).
pub fn setup_notice(n: SetupNotice) -> (res: String)
    ensures
        res@ == setup_notice_text(n),
{
    match n {
        SetupNotice::AlreadySetUp => owned("The server has already been set up! Use `/settings` to modify settings."),
        SetupNotice::MissingRoles => owned("Both roles must be selected to set Twilight Sword."),
        SetupNotice::Stored => owned("You've set up Twilight Sword! \u{1F389}\nRemember to use `/settings` to configure other functionality."),
        SetupNotice::StoredElsewhere => owned("This server is already set up. Setup may have been completed elsewhere."),
        SetupNotice::StoreFailed => owned("An internal error occurred setting up the server."),
        SetupNotice::Canceled => owned("Twilight Sword setup canceled."),
        SetupNotice::TimedOut => owned("Setup timed out. Run `/setup` again to set up Twilight Sword for your server!"),
    }
}

/// The answer to storing a new server: stored, stored before (the insert hit the unique
/// key), or failed.
pub fn store_outcome_notice(outcome: SetupStoreOutcome) -> (res: SetupNotice)
    ensures
        res == match outcome {
            SetupStoreOutcome::Stored => SetupNotice::Stored,
            SetupStoreOutcome::AlreadySetUp => SetupNotice::StoredElsewhere,
            SetupStoreOutcome::Failed => SetupNotice::StoreFailed,
        },
{
    match outcome {
        SetupStoreOutcome::Stored => SetupNotice::Stored,
        SetupStoreOutcome::AlreadySetUp => SetupNotice::StoredElsewhere,
        SetupStoreOutcome::Failed => SetupNotice::StoreFailed,
    }
}

} // verus!
