//! From the credentials that a client presents to the account that Windows is asked
//! about.

use vstd::prelude::*;

use crate::access::AccessGate;
use crate::config::{normalize_account, AppConfig};
use crate::windows::{logon_request, LogonRequest};

verus! {

/// Where a character stands last in a text; -1 where it does not.
pub open spec fn last_index(s: Seq<char>, c: char) -> int
    decreases s.len(),
{
    if s.len() == 0 {
        -1
    } else if s.last() == c {
        s.len() - 1
    } else {
        last_index(s.drop_last(), c)
    }
}

/// The domain of an account and its name: what stands before the last backslash and
/// what stands behind it, or no domain.
pub open spec fn account_parts(account: Seq<char>) -> (Seq<char>, Seq<char>) {
    let whole = crate::text::trimmed(account);
    let at = last_index(whole, '\\');
    if at < 0 {
        (Seq::empty(), whole)
    } else {
        (
            crate::text::trimmed(whole.subrange(0, at)),
            crate::text::trimmed(whole.subrange(at + 1, whole.len() as int)),
        )
    }
}

/// Splits an account into its domain and its name.
pub fn split_account(account: &str) -> (parts: (&str, &str))
    ensures
        parts.0@ == account_parts(account@).0,
        parts.1@ == account_parts(account@).1,
{
    let whole = account.trim();
    let list = crate::text::characters(whole);
    let mut k: usize = list.len();
    assert(list@.take(k as int) =~= list@);
    while k > 0
        invariant
            k <= list.len(),
            list@ == whole@,
            whole@ == crate::text::trimmed(account@),
            last_index(list@, '\\') == last_index(list@.take(k as int), '\\'),
        decreases k,
    {
        let ghost here = list@.take(k as int);
        assert(here.drop_last() =~= list@.take(k - 1));
        if list[k - 1] == '\\' {
            let domain = whole.substring_char(0, k - 1);
            let name = whole.substring_char(k, list.len());
            return (domain.trim(), name.trim());
        }
        k -= 1;
    }
    proof {
        reveal_strlit("");
        assert(""@ =~= Seq::<char>::empty());
    }
    ("", whole)
}

/// A name qualified by a domain.
pub open spec fn qualified(domain: Seq<char>, name: Seq<char>) -> Seq<char> {
    domain + "\\"@ + name
}

/// Qualifies a name by a domain.
fn qualify(domain: &str, name: &str) -> (result: String)
    ensures
        result@ == qualified(domain@, name@),
{
    let mut result = domain.to_owned();
    result.push_str("\\");
    result.push_str(name);
    result
}

/// The account as it is shown to the client.
pub open spec fn shown_account(domain: Option<Seq<char>>, username: Seq<char>) -> Seq<char> {
    match domain {
        Some(domain) if crate::text::trimmed(domain).len() > 0 => qualified(
            crate::text::trimmed(domain),
            username,
        ),
        _ => username,
    }
}

/// The account as it is shown to the client.
pub fn display_account(domain: Option<&str>, username: &str) -> (account: String)
    ensures
        account@ == shown_account(
            match domain {
                Some(domain) => Some(domain@),
                None => None,
            },
            username@,
        ),
{
    if let Some(domain) = domain {
        let domain = domain.trim();
        if !domain.is_empty() {
            return qualify(domain, username);
        }
    }
    username.to_owned()
}

/// The names under which an account may be listed: alone, with its domain, with the
/// name of the machine, and with the dot that stands for the machine.
pub open spec fn candidates(
    domain: Seq<char>,
    username: Seq<char>,
    computer: Option<Seq<char>>,
) -> Seq<Seq<char>> {
    let name = crate::config::account_key(username);
    let domain = crate::config::account_key(domain);
    let alone = seq![name];
    let with_domain = if domain.len() > 0 {
        alone.push(qualified(domain, name))
    } else {
        alone
    };
    let with_computer = match computer {
        Some(computer) => with_domain.push(qualified(crate::text::lowercase(computer), name)),
        None => with_domain,
    };
    with_computer.push(qualified("."@, name))
}

/// The names under which an account may be listed.
pub fn account_candidates(domain: &str, username: &str, computer: Option<&str>) -> (list: Vec<
    String,
>)
    ensures
        crate::text::texts(list@) == candidates(
            domain@,
            username@,
            match computer {
                Some(computer) => Some(computer@),
                None => None,
            },
        ),
{
    let ghost given = domain@;
    let name = normalize_account(username);
    let domain = normalize_account(domain);
    let mut list: Vec<String> = Vec::new();
    list.push(name.clone());
    if !domain.as_str().is_empty() {
        list.push(qualify(domain.as_str(), name.as_str()));
    }
    if let Some(computer) = computer {
        let computer = computer.to_lowercase();
        list.push(qualify(computer.as_str(), name.as_str()));
    }
    list.push(qualify(".", name.as_str()));
    assert(crate::text::texts(list@) =~= candidates(
        given,
        username@,
        match computer {
            Some(computer) => Some(computer@),
            None => None,
        },
    ));
    list
}

/// What becomes of an account and a password.
pub enum AccountCheck {
    /// The account may not connect, whatever its password.
    Rejected,
    /// Windows decides.
    AskWindows(LogonRequest),
}

/// A name that the environment may lack, as a value.
pub open spec fn given(name: Option<&str>) -> Option<Seq<char>> {
    match name {
        Some(name) => Some(name@),
        None => None,
    }
}

/// Whether Windows is asked about an account: it is on the list, and no zero cuts its
/// name or its password short.
pub open spec fn is_asked(
    config: crate::config::ConfigModel,
    domain: Seq<char>,
    username: Seq<char>,
    password: Seq<char>,
    computer: Option<Seq<char>>,
) -> bool {
    config.allows(candidates(domain, username, computer)) && !crate::windows::holds_zero(username)
        && !crate::windows::holds_zero(password) && !crate::windows::holds_zero(domain)
}

/// Whether a check asks Windows about an account exactly where that is due.
pub open spec fn check_decides(
    check: AccountCheck,
    config: crate::config::ConfigModel,
    domain: Seq<char>,
    username: Seq<char>,
    password: Seq<char>,
    computer: Option<Seq<char>>,
) -> bool {
    if is_asked(config, domain, username, password, computer) {
        check matches AccountCheck::AskWindows(request) && request.domain@ == crate::wide::utf16(
            crate::windows::logon_domain(domain),
        ).push(0) && request.username@ == crate::wide::utf16(username).push(0)
            && request.password@ == crate::wide::utf16(password).push(0)
    } else {
        check is Rejected
    }
}

/// Checks credentials against the list of accounts.
pub fn verify_credentials(
    settings: &AppConfig,
    domain: &str,
    username: &str,
    password: &str,
    computer: Option<&str>,
) -> (check: AccountCheck)
    ensures
        check_decides(check, settings@, domain@, username@, password@, given(computer)),
{
    let list = account_candidates(domain, username, computer);
    if !settings.allows_user(&list) {
        return AccountCheck::Rejected;
    }
    match logon_request(domain, username, password) {
        Some(request) => AccountCheck::AskWindows(request),
        None => AccountCheck::Rejected,
    }
}

/// Checks an account, which may carry its domain, against the list of accounts.
pub fn verify_account(
    settings: &AppConfig,
    account: &str,
    password: &str,
    computer: Option<&str>,
) -> (check: AccountCheck)
    ensures
        check_decides(
            check,
            settings@,
            account_parts(account@).0,
            account_parts(account@).1,
            password@,
            given(computer),
        ),
{
    let (domain, username) = split_account(account);
    verify_credentials(settings, domain, username, password, computer)
}

/// Whether an account that Windows already authenticated may connect.
pub fn is_account_allowed(settings: &AppConfig, account: &str, computer: Option<&str>) -> (allowed:
    bool)
    ensures
        allowed == settings@.allows(
            candidates(
                account_parts(account@).0,
                account_parts(account@).1,
                given(computer),
            ),
        ),
{
    let (domain, username) = split_account(account);
    let list = account_candidates(domain, username, computer);
    settings.allows_user(&list)
}

/// What becomes of the credentials that a client sends when it connects. The client
/// is let in to the access screen in any case.
pub enum ClientInfoPlan {
    /// The client has signed in before; nothing is checked again.
    SignedIn,
    /// The client sent no credentials and sees the sign-in form.
    ShowLogin,
    /// The account is checked, and the outcome is reported with this generation.
    Validate { generation: u64, account: String },
}

/// Whether the credentials that a client sends when it connects come to this plan, and the
/// barrier to this state.
pub open spec fn takes_client_info(
    before: crate::access::GateModel,
    domain: Option<Seq<char>>,
    username: Seq<char>,
    password: Seq<char>,
    plan: ClientInfoPlan,
    after: crate::access::GateModel,
) -> bool {
    let account = shown_account(domain, username);
    if before.state.authenticated {
        plan is SignedIn && after == before
    } else if crate::text::trimmed(username).len() == 0 || password.len() == 0 {
        plan is ShowLogin && after == if before.state.status
            == crate::access::AccessStatus::Checking {
            before
        } else {
            before.publishing(
                crate::access::AccessModel {
                    status: crate::access::AccessStatus::Ready,
                    ..before.state
                },
            )
        }
    } else {
        plan matches ClientInfoPlan::Validate { generation, account: shown } && generation
            == before.state.generation && shown@ == account && after == before.publishing(
            before.state.checking(account),
        )
    }
}

/// Takes the credentials that a client sends when it connects.
pub fn plan_client_info(
    gate: &mut AccessGate,
    domain: Option<&str>,
    username: &str,
    password: &str,
) -> (plan: ClientInfoPlan)
    ensures
        takes_client_info(
            old(gate)@,
            given(domain),
            username@,
            password@,
            plan,
            final(gate)@,
        ),
        ({
            let before = old(gate)@;
            let account = shown_account(given(domain), username@);
            if before.state.authenticated {
                plan is SignedIn && final(gate)@ == before
            } else if crate::text::trimmed(username@).len() == 0 || password@.len() == 0 {
                plan is ShowLogin && final(gate)@ == if before.state.status
                    == crate::access::AccessStatus::Checking {
                    before
                } else {
                    before.publishing(
                        crate::access::AccessModel {
                            status: crate::access::AccessStatus::Ready,
                            ..before.state
                        },
                    )
                }
            } else {
                plan matches ClientInfoPlan::Validate { generation, account: shown } && generation
                    == before.state.generation && shown@ == account && final(gate)@
                    == before.publishing(before.state.checking(account))
            }
        }),
{
    if gate.is_authenticated() {
        return ClientInfoPlan::SignedIn;
    }
    if username.trim().is_empty() || password.is_empty() {
        gate.show_login();
        return ClientInfoPlan::ShowLogin;
    }
    let account = display_account(domain, username);
    let generation = gate.begin_validation(account.as_str());
    ClientInfoPlan::Validate { generation, account }
}

/// The last index of a character lies in the text.
proof fn lemma_last_index(s: Seq<char>, c: char)
    ensures
        -1 <= last_index(s, c) < s.len(),
        last_index(s, c) >= 0 ==> s[last_index(s, c)] == c,
    decreases s.len(),
{
    if s.len() > 0 && s.last() != c {
        lemma_last_index(s.drop_last(), c);
    }
}

/// A character that stands nowhere else stands last where it stands.
proof fn lemma_last_index_is_unique(s: Seq<char>, c: char, at: int)
    requires
        0 <= at < s.len(),
        s[at] == c,
        forall|i: int| at < i < s.len() ==> s[i] != c,
    ensures
        last_index(s, c) == at,
    decreases s.len(),
{
    if at < s.len() - 1 {
        lemma_last_index_is_unique(s.drop_last(), c, at);
    }
}

/// A qualified account comes apart into its domain and its name.
pub proof fn law_qualified_accounts_come_apart(domain: Seq<char>, name: Seq<char>)
    requires
        crate::text::trimmed(domain) == domain,
        crate::text::trimmed(name) == name,
        domain.len() > 0,
        name.len() > 0,
        !name.contains('\\'),
    ensures
        account_parts(qualified(domain, name)) == (domain, name),
{
    reveal_strlit("\\");
    let whole = qualified(domain, name);
    crate::text::lemma_trimmed_ends(domain);
    crate::text::lemma_trimmed_ends(name);
    assert(whole[0] == domain[0]);
    assert(whole.last() == name.last());
    assert(crate::text::trimmed(whole) == whole);
    let at = domain.len() as int;
    assert(whole[at] == '\\');
    assert forall|i: int| at < i < whole.len() implies whole[i] != '\\' by {
        assert(whole[i] == name[i - at - 1]);
        assert(name.contains(name[i - at - 1]));
    }
    lemma_last_index_is_unique(whole, '\\', at);
    assert(whole.subrange(0, at) =~= domain);
    assert(whole.subrange(at + 1, whole.len() as int) =~= name);
}

/// An account without a backslash has no domain.
pub proof fn law_plain_accounts_have_no_domain(account: Seq<char>)
    requires
        !crate::text::trimmed(account).contains('\\'),
    ensures
        account_parts(account) == (Seq::<char>::empty(), crate::text::trimmed(account)),
{
    let whole = crate::text::trimmed(account);
    lemma_last_index(whole, '\\');
    let at = last_index(whole, '\\');
    if at >= 0 {
        assert(whole.contains(whole[at]));
    }
}

/// A name that is listed alone lets the account in under every domain; one that is
/// listed with the dot does so too.
pub proof fn law_listed_names_cover_every_domain(
    config: crate::config::ConfigModel,
    domain: Seq<char>,
    username: Seq<char>,
    computer: Option<Seq<char>>,
)
    requires
        ({
            let key = crate::config::account_key(username);
            let local = qualified("."@, key);
            ||| key.len() > 0 && config.allowed_users.contains(key) && crate::config::account_key(
                key,
            ) == key
            ||| config.allowed_users.contains(local) && crate::config::account_key(local) == local
        }),
    ensures
        config.allows(candidates(domain, username, computer)),
{
    reveal_strlit("\\");
    let list = candidates(domain, username, computer);
    assert(list[0] == crate::config::account_key(username));
    assert(list[list.len() - 1] == qualified("."@, crate::config::account_key(username)));
}

/// An account is let in under its name alone, under its domain and name, under the name of
/// this computer and its name, and under a dot and its name; under nothing else. The domain
/// is left out where it is blank, the computer where it has no name.
pub proof fn law_accounts_have_these_names(
    domain: Seq<char>,
    username: Seq<char>,
    computer: Option<Seq<char>>,
    candidate: Seq<char>,
)
    ensures
        ({
            let name = crate::config::account_key(username);
            let home = crate::config::account_key(domain);
            candidates(domain, username, computer).contains(candidate) <==> {
                ||| candidate == name
                ||| home.len() > 0 && candidate == home + seq!['\\'] + name
                ||| (computer matches Some(own) && candidate == crate::text::lowercase(own) + seq![
                    '\\',
                ] + name)
                ||| candidate == seq!['.', '\\'] + name
            }
        }),
{
    reveal_strlit("\\");
    reveal_strlit(".");
    let name = crate::config::account_key(username);
    let home = crate::config::account_key(domain);
    let list = candidates(domain, username, computer);
    assert("\\"@ =~= seq!['\\']);
    assert("."@ =~= seq!['.']);
    assert(qualified("."@, name) =~= seq!['.', '\\'] + name);
    assert(list[0] == name);
    assert(list[list.len() - 1] == qualified("."@, name));
    if home.len() > 0 {
        assert(list[1] == qualified(home, name));
    }
    if let Some(own) = computer {
        assert(list[list.len() - 2] == qualified(crate::text::lowercase(own), name));
    }
    if list.contains(candidate) {
        let i = choose|i: int| 0 <= i < list.len() && list[i] == candidate;
        assert(i == 0 || i == list.len() - 1 || (i == 1 && home.len() > 0) || (i == list.len() - 2
            && computer is Some));
    }
}

/// An account comes apart at its last backslash, into a domain and a name without white space
/// around them.
pub proof fn law_accounts_come_apart_at_the_last_backslash(account: Seq<char>, at: int)
    requires
        ({
            let whole = crate::text::trimmed(account);
            &&& 0 <= at < whole.len()
            &&& whole[at] == '\\'
            &&& forall|i: int| at < i < whole.len() ==> whole[i] != '\\'
        }),
    ensures
        ({
            let whole = crate::text::trimmed(account);
            &&& account_parts(account).0 == crate::text::trimmed(whole.take(at))
            &&& account_parts(account).1 == crate::text::trimmed(whole.skip(at + 1))
        }),
{
    let whole = crate::text::trimmed(account);
    lemma_last_index_is_unique(whole, '\\', at);
    assert(whole.subrange(0, at) =~= whole.take(at));
    assert(whole.subrange(at + 1, whole.len() as int) =~= whole.skip(at + 1));
}

/// An account is shown with its domain and a backslash before it where the domain is not
/// blank, and alone otherwise.
pub proof fn law_accounts_are_shown_with_their_domain(domain: Seq<char>, username: Seq<char>)
    ensures
        shown_account(None, username) == username,
        ({
            let home = crate::text::trimmed(domain);
            let shown = shown_account(Some(domain), username);
            &&& home.len() == 0 ==> shown == username
            &&& home.len() > 0 ==> shown.len() == home.len() + 1 + username.len() && shown.take(
                home.len() as int,
            ) == home && shown[home.len() as int] == '\\' && shown.skip((home.len() + 1) as int)
                == username
        }),
{
    reveal_strlit("\\");
    let home = crate::text::trimmed(domain);
    let shown = shown_account(Some(domain), username);
    if home.len() > 0 {
        assert(shown.take(home.len() as int) =~= home);
        assert(shown.skip((home.len() + 1) as int) =~= username);
    }
}

/// Windows is asked about exactly the accounts that are listed and hold no zero, and about
/// nobody while the list is empty.
pub proof fn law_only_listed_accounts_are_asked_about(
    check: AccountCheck,
    config: crate::config::ConfigModel,
    domain: Seq<char>,
    username: Seq<char>,
    password: Seq<char>,
    computer: Option<Seq<char>>,
)
    requires
        check_decides(check, config, domain, username, password, computer),
    ensures
        check is AskWindows <==> {
            &&& config.allows(candidates(domain, username, computer))
            &&& !username.contains('\0') && !password.contains('\0') && !domain.contains('\0')
        },
        config.allowed_users.len() == 0 ==> check is Rejected,
        check matches AccountCheck::AskWindows(request) ==> request.password@.last() == 0
            && request.password@.drop_last() == crate::wide::utf16(password)
            && request.username@.last() == 0 && request.username@.drop_last()
            == crate::wide::utf16(username),
{
    if let AccountCheck::AskWindows(request) = check {
        assert(request.password@.drop_last() =~= crate::wide::utf16(password));
        assert(request.username@.drop_last() =~= crate::wide::utf16(username));
    }
}

/// Credentials are checked exactly if nobody has signed in, the account is not blank and there
/// is a password: under the account as it is shown, in the client's own generation. Nobody is
/// signed in by sending them, and who has signed in stays so.
pub proof fn law_sent_credentials_are_only_checked(
    before: crate::access::GateModel,
    domain: Option<Seq<char>>,
    username: Seq<char>,
    password: Seq<char>,
    plan: ClientInfoPlan,
    after: crate::access::GateModel,
)
    requires
        takes_client_info(before, domain, username, password, plan, after),
    ensures
        plan is Validate <==> !before.state.authenticated && crate::text::trimmed(username).len()
            > 0 && password.len() > 0,
        plan is SignedIn <==> before.state.authenticated,
        plan matches ClientInfoPlan::Validate { generation, account } ==> {
            &&& generation == before.state.generation
            &&& account@ == shown_account(domain, username)
            &&& after.state.status == crate::access::AccessStatus::Checking
            &&& after.state.username == crate::text::trimmed(account@)
            &&& after.state.password.len() == 0
        },
        after.state.authenticated == before.state.authenticated,
        plan is ShowLogin && before.state.status != crate::access::AccessStatus::Checking
            ==> after.state.status == crate::access::AccessStatus::Ready,
{
}

} // verus!
