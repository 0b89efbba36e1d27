use vstd::prelude::*;

use crate::error::ScraperError;
use crate::scrape::{selected_attrs, select_attrs};
use crate::text::{find_idx, lemma_find_idx_bounds, lemma_find_idx_concat, opt_view, trimmed, find_char, starts_with, str_eq, trim};
use vstd::string::{StrSliceExecFns, StringExecFns};

verus! {

/// The stations of the login state machine.
#[derive(Debug, Clone, Copy, PartialEq, Eq, Structural)]
pub enum AuthState {
    /// No session: nothing fetched yet.
    Anonymous,
    /// The login page was fetched and its one-time token extracted.
    TokenAcquired,
    /// Credentials were posted; the outcome is not yet known.
    CredentialsSubmitted,
    /// The final redirect landed on the portal: the session is live.
    Authenticated,
    /// A later fetch was redirected away: the session is gone.
    Expired,
}

/// What happened on the wire, reduced to what the state machine must know.
#[derive(Debug, Clone, Copy, PartialEq, Eq, Structural)]
pub enum AuthEvent {
    /// The login page was fetched; whether its token was found.
    LoginPageFetched { token_found: bool },
    /// The credential form was posted.
    CredentialsPosted,
    /// The post's redirect chain resolved; whether it landed on the portal.
    LoginResolved { host_is_portal: bool },
    /// A content fetch resolved; whether its path matches the request.
    FetchResolved { path_matches: bool },
    /// Saved cookies were restored into the cookie store.
    SessionRestored,
}

/// The transition relation of the login state machine. A missing token or a
/// foreign final host throws the machine back to `Anonymous`; a mismatched
/// fetch path expires the session; restored cookies move it optimistically to
/// `Authenticated`, to be confirmed by the first real fetch.
pub open spec fn auth_step_spec(state: AuthState, event: AuthEvent) -> AuthState {
    match (state, event) {
        (AuthState::Anonymous, AuthEvent::LoginPageFetched { token_found }) => if token_found {
            AuthState::TokenAcquired
        } else {
            AuthState::Anonymous
        },
        (AuthState::TokenAcquired, AuthEvent::CredentialsPosted) => AuthState::CredentialsSubmitted,
        (AuthState::CredentialsSubmitted, AuthEvent::LoginResolved { host_is_portal }) => if host_is_portal {
            AuthState::Authenticated
        } else {
            AuthState::Anonymous
        },
        (AuthState::Authenticated, AuthEvent::FetchResolved { path_matches }) => if path_matches {
            AuthState::Authenticated
        } else {
            AuthState::Expired
        },
        (AuthState::Anonymous, AuthEvent::SessionRestored) => AuthState::Authenticated,
        (s, _) => s,
    }
}

/// Advances the login state machine by one observed event.
pub fn auth_step(state: &AuthState, event: &AuthEvent) -> (next: AuthState)
    ensures
        next == auth_step_spec(*state, *event),
{
    match (state, event) {
        (AuthState::Anonymous, AuthEvent::LoginPageFetched { token_found }) => {
            if *token_found {
                AuthState::TokenAcquired
            } else {
                AuthState::Anonymous
            }
        },
        (AuthState::TokenAcquired, AuthEvent::CredentialsPosted) => AuthState::CredentialsSubmitted,
        (AuthState::CredentialsSubmitted, AuthEvent::LoginResolved { host_is_portal }) => {
            if *host_is_portal {
                AuthState::Authenticated
            } else {
                AuthState::Anonymous
            }
        },
        (AuthState::Authenticated, AuthEvent::FetchResolved { path_matches }) => {
            if *path_matches {
                AuthState::Authenticated
            } else {
                AuthState::Expired
            }
        },
        (AuthState::Anonymous, AuthEvent::SessionRestored) => AuthState::Authenticated,
        (s, _) => *s,
    }
}

// ---------------------------------------------------------------------------
// Token extraction and response checks
// ---------------------------------------------------------------------------

/// The selector of the hidden login-form field that carries the one-time token.
pub open spec fn execution_selector() -> Seq<char> {
    "input[name=\"execution\"]"@
}

/// Extracts the one-time login token: the `value` attribute of the first
/// hidden `execution` form field. Its absence is fatal, with no retry.
pub fn extract_execution_token(html: &str) -> (r: Result<String, ScraperError>)
    ensures
        r matches Ok(t) ==> selected_attrs(html@, execution_selector(), "value"@)[0]
            == Some::<Seq<char>>(t@),
        r is Ok <==> selected_attrs(html@, execution_selector(), "value"@).len() > 0
            && selected_attrs(html@, execution_selector(), "value"@)[0] is Some,
        r is Err ==> r matches Err(ScraperError::TokenNotFound),
{
    let attrs = select_attrs(html, "input[name=\"execution\"]", "value");
    if attrs.len() == 0 {
        return Err(ScraperError::TokenNotFound);
    }
    match &attrs[0] {
        Some(t) => {
            assert(attrs.deep_view()[0] == Some::<Seq<char>>(t@));
            Ok(t.clone())
        },
        None => {
            assert(attrs.deep_view()[0] is None);
            Err(ScraperError::TokenNotFound)
        },
    }
}

/// The form fields of the credential post, in order: the username, the
/// password, the one-time token, and the event field the provider expects.
pub fn credential_form(username: &str, password: &str, execution: &str) -> (r: Vec<
    (String, String),
>)
    ensures
        r.deep_view() =~= seq![
            ("username"@, username@),
            ("password"@, password@),
            ("execution"@, execution@),
            ("_eventId"@, "submit"@),
        ],
{
    let mut r: Vec<(String, String)> = Vec::new();
    r.push((String::from_str("username"), username.to_owned()));
    r.push((String::from_str("password"), password.to_owned()));
    r.push((String::from_str("execution"), execution.to_owned()));
    r.push((String::from_str("_eventId"), String::from_str("submit")));
    r
}

/// The host of the portal; landing anywhere else after the credential post
/// means the login failed.
pub open spec fn portal_host() -> Seq<char> {
    "spot.upi.edu"@
}

/// Checks the host reached after the provider's redirect chain: equality with
/// the portal's host means success; anything else is a fatal authentication
/// failure, and credentials are not retried.
pub fn verify_login_host(final_host: &str) -> (r: Result<(), ScraperError>)
    ensures
        r is Ok <==> final_host@ == portal_host(),
        r is Err ==> r matches Err(ScraperError::AuthenticationFailed),
{
    if str_eq(final_host, "spot.upi.edu") {
        Ok(())
    } else {
        Err(ScraperError::AuthenticationFailed)
    }
}

/// Checks the path a content fetch resolved to: a resolved path that does not
/// start with the requested path signals a silent redirect to a login or
/// error page, and the session counts as expired.
pub fn verify_fetch_path(requested: &str, resolved: &str) -> (r: Result<(), ScraperError>)
    ensures
        r is Ok <==> requested@.is_prefix_of(resolved@),
        r is Err ==> r matches Err(ScraperError::SessionExpired),
{
    if starts_with(resolved, requested) {
        Ok(())
    } else {
        Err(ScraperError::SessionExpired)
    }
}

// ---------------------------------------------------------------------------
// Session persistence
// ---------------------------------------------------------------------------

/// A saved session: per cookie scope, the full cookie-header-equivalent
/// string. Either scope may be absent.
#[derive(Debug, Clone)]
pub struct SessionCookies {
    /// The cookies scoped to the portal's domain.
    pub portal: Option<String>,
    /// The cookies scoped to the identity provider's domain.
    pub identity_provider: Option<String>,
}

/// The serialized form of a saved session: one line per present scope, the
/// scope name and its cookie string separated by a tab.
pub open spec fn session_encoding(p: Option<Seq<char>>, q: Option<Seq<char>>) -> Seq<char> {
    match (p, q) {
        (None, None) => Seq::empty(),
        (Some(pv), None) => "portal\t"@ + pv,
        (None, Some(qv)) => "identity_provider\t"@ + qv,
        (Some(pv), Some(qv)) => "portal\t"@ + pv + seq!['\n'] + "identity_provider\t"@ + qv,
    }
}

/// One line of a saved session: which scope it names, and the cookie string.
pub open spec fn line_decoding(l: Seq<char>) -> Option<(bool, Seq<char>)> {
    let t = find_idx(l, '\t');
    if t == l.len() {
        None
    } else {
        let key = l.subrange(0, t);
        let val = l.subrange(t + 1, l.len() as int);
        if key == "portal"@ {
            Some((true, val))
        } else if key == "identity_provider"@ {
            Some((false, val))
        } else {
            None
        }
    }
}

/// Inversion of `session_encoding`; `None` on anything malformed.
pub open spec fn session_decoding(s: Seq<char>) -> Option<(Option<Seq<char>>, Option<Seq<char>>)> {
    if s.len() == 0 {
        Some((None, None))
    } else {
        let k = find_idx(s, '\n');
        if k == s.len() {
            match line_decoding(s) {
                Some((true, v)) => Some((Some(v), None)),
                Some((false, v)) => Some((None, Some(v))),
                None => None,
            }
        } else {
            let l1 = s.subrange(0, k);
            let l2 = s.subrange(k + 1, s.len() as int);
            if find_idx(l2, '\n') == l2.len() {
                match (line_decoding(l1), line_decoding(l2)) {
                    (Some((true, pv)), Some((false, qv))) => Some((Some(pv), Some(qv))),
                    _ => None,
                }
            } else {
                None
            }
        }
    }
}

/// Serializes a session for an external store.
pub fn encode_session(sc: &SessionCookies) -> (r: String)
    ensures
        r@ == session_encoding(opt_view(sc.portal), opt_view(sc.identity_provider)),
{
    match (&sc.portal, &sc.identity_provider) {
        (None, None) => {
            let r = String::new();
            assert(r@ =~= session_encoding(opt_view(sc.portal), opt_view(sc.identity_provider)));
            r
        },
        (Some(pv), None) => {
            let r = String::from_str("portal\t").concat(pv.as_str());
            assert(r@ =~= session_encoding(opt_view(sc.portal), opt_view(sc.identity_provider)));
            r
        },
        (None, Some(qv)) => {
            let r = String::from_str("identity_provider\t").concat(qv.as_str());
            assert(r@ =~= session_encoding(opt_view(sc.portal), opt_view(sc.identity_provider)));
            r
        },
        (Some(pv), Some(qv)) => {
            let mut r = String::from_str("portal\t").concat(pv.as_str());
            r.append("\n");
            let r2 = r.concat("identity_provider\t").concat(qv.as_str());
            proof {
                reveal_strlit("\n");
                assert(r2@ =~= session_encoding(
                    opt_view(sc.portal),
                    opt_view(sc.identity_provider),
                ));
            }
            r2
        },
    }
}

/// Decodes one line of a saved session.
fn decode_line(l: &str) -> (r: Option<(bool, String)>)
    ensures
        r matches Some((is_portal, v)) ==> line_decoding(l@) == Some((is_portal, v@)),
        r is Some <==> line_decoding(l@) is Some,
{
    let len = l.unicode_len();
    let t = find_char(l, '\t');
    if t == len {
        return None;
    }
    let key = l.substring_char(0, t);
    let val = l.substring_char(t + 1, len);
    assert(key@ =~= l@.subrange(0, t as int));
    assert(val@ =~= l@.subrange(t + 1, l@.len() as int));
    if str_eq(key, "portal") {
        Some((true, val.to_owned()))
    } else if str_eq(key, "identity_provider") {
        Some((false, val.to_owned()))
    } else {
        None
    }
}

/// Restores a session from its serialized form; `None` on anything malformed.
pub fn decode_session(s: &str) -> (r: Option<SessionCookies>)
    ensures
        r matches Some(sc) ==> session_decoding(s@) == Some(
            (opt_view(sc.portal), opt_view(sc.identity_provider)),
        ),
        r is Some <==> session_decoding(s@) is Some,
{
    let len = s.unicode_len();
    if len == 0 {
        return Some(SessionCookies { portal: None, identity_provider: None });
    }
    let k = find_char(s, '\n');
    if k == len {
        match decode_line(s) {
            Some((true, v)) => Some(SessionCookies { portal: Some(v), identity_provider: None }),
            Some((false, v)) => Some(SessionCookies { portal: None, identity_provider: Some(v) }),
            None => None,
        }
    } else {
        let l1 = s.substring_char(0, k);
        let l2 = s.substring_char(k + 1, len);
        assert(l1@ =~= s@.subrange(0, k as int));
        assert(l2@ =~= s@.subrange(k + 1, s@.len() as int));
        if find_char(l2, '\n') != l2.unicode_len() {
            return None;
        }
        match (decode_line(l1), decode_line(l2)) {
            (Some((true, pv)), Some((false, qv))) => Some(
                SessionCookies { portal: Some(pv), identity_provider: Some(qv) },
            ),
            _ => None,
        }
    }
}

/// A line never holds a newline if its cookie value holds none.
proof fn lemma_line_no_newline(key_tab: Seq<char>, v: Seq<char>)
    requires
        forall|i: int| 0 <= i < key_tab.len() ==> key_tab[i] != '\n',
        forall|i: int| 0 <= i < v.len() ==> v[i] != '\n',
    ensures
        forall|i: int| 0 <= i < (key_tab + v).len() ==> (key_tab + v)[i] != '\n',
{
}

/// Decoding a line of a given scope undoes its encoding.
proof fn lemma_line_round_trip_portal(v: Seq<char>)
    ensures
        line_decoding("portal\t"@ + v) == Some((true, v)),
{
    reveal_strlit("portal\t");
    reveal_strlit("portal");
    let key = "portal"@;
    let l = "portal\t"@ + v;
    assert(l =~= key + seq!['\t'] + v);
    assert(forall|i: int| 0 <= i < key.len() ==> key[i] != '\t');
    lemma_find_idx_concat(key, '\t', v);
    assert(l.subrange(0, 6) =~= key);
    assert(l.subrange(7, l.len() as int) =~= v);
}

/// Decoding a line of the identity-provider scope undoes its encoding.
proof fn lemma_line_round_trip_idp(v: Seq<char>)
    ensures
        line_decoding("identity_provider\t"@ + v) == Some((false, v)),
{
    reveal_strlit("identity_provider\t");
    reveal_strlit("identity_provider");
    reveal_strlit("portal");
    let key = "identity_provider"@;
    let l = "identity_provider\t"@ + v;
    assert(l =~= key + seq!['\t'] + v);
    assert(forall|i: int| 0 <= i < key.len() ==> key[i] != '\t');
    lemma_find_idx_concat(key, '\t', v);
    assert(l.subrange(0, 17) =~= key);
    assert(l.subrange(18, l.len() as int) =~= v);
    assert(key != "portal"@);
}

/// Restoring a saved session returns exactly what was saved, for every pair
/// of cookie strings free of newlines.
pub proof fn lemma_session_round_trip(p: Option<Seq<char>>, q: Option<Seq<char>>)
    requires
        p matches Some(pv) ==> forall|i: int| 0 <= i < pv.len() ==> pv[i] != '\n',
        q matches Some(qv) ==> forall|i: int| 0 <= i < qv.len() ==> qv[i] != '\n',
    ensures
        session_decoding(session_encoding(p, q)) == Some((p, q)),
{
    reveal_strlit("portal\t");
    reveal_strlit("identity_provider\t");
    let s = session_encoding(p, q);
    match (p, q) {
        (None, None) => {
            assert(s.len() == 0);
        },
        (Some(pv), None) => {
            lemma_line_round_trip_portal(pv);
            assert(forall|i: int| 0 <= i < "portal\t"@.len() ==> "portal\t"@[i] != '\n');
            lemma_line_no_newline("portal\t"@, pv);
            crate::text::lemma_find_idx_absent(s, '\n');
        },
        (None, Some(qv)) => {
            lemma_line_round_trip_idp(qv);
            assert(forall|i: int|
                0 <= i < "identity_provider\t"@.len() ==> "identity_provider\t"@[i] != '\n');
            lemma_line_no_newline("identity_provider\t"@, qv);
            crate::text::lemma_find_idx_absent(s, '\n');
        },
        (Some(pv), Some(qv)) => {
            let l1 = "portal\t"@ + pv;
            let l2 = "identity_provider\t"@ + qv;
            assert(forall|i: int| 0 <= i < "portal\t"@.len() ==> "portal\t"@[i] != '\n');
            assert(forall|i: int|
                0 <= i < "identity_provider\t"@.len() ==> "identity_provider\t"@[i] != '\n');
            lemma_line_no_newline("portal\t"@, pv);
            lemma_line_no_newline("identity_provider\t"@, qv);
            assert(s =~= l1 + seq!['\n'] + l2);
            lemma_find_idx_concat(l1, '\n', l2);
            assert(s.subrange(0, l1.len() as int) =~= l1);
            assert(s.subrange(l1.len() as int + 1, s.len() as int) =~= l2);
            crate::text::lemma_find_idx_absent(l2, '\n');
            lemma_line_round_trip_portal(pv);
            lemma_line_round_trip_idp(qv);
        },
    }
}

// ---------------------------------------------------------------------------
// Cookie restoration
// ---------------------------------------------------------------------------

/// The semicolon-separated pairs of a cookie string, trimmed, with empty
/// segments dropped.
pub open spec fn cookie_pairs(s: Seq<char>) -> Seq<Seq<char>>
    decreases s.len()
        via cookie_pairs_decreases
{
    let k = find_idx(s, ';');
    if k == s.len() {
        if trimmed(s).len() == 0 {
            Seq::empty()
        } else {
            seq![trimmed(s)]
        }
    } else {
        let head = trimmed(s.subrange(0, k));
        let rest = cookie_pairs(s.subrange(k + 1, s.len() as int));
        if head.len() == 0 {
            rest
        } else {
            seq![head] + rest
        }
    }
}

#[via_fn]
proof fn cookie_pairs_decreases(s: Seq<char>) {
    lemma_find_idx_bounds(s, ';');
}

/// Splits a cookie-header string into its individual cookie pairs, so each
/// can be re-injected into a cookie store.
pub fn split_cookie_pairs(s: &str) -> (r: Vec<String>)
    ensures
        r.deep_view() == cookie_pairs(s@),
    decreases s@.len(),
{
    proof {
        lemma_find_idx_bounds(s@, ';');
    }
    let len = s.unicode_len();
    let k = find_char(s, ';');
    if k == len {
        let t = trim(s);
        if t.unicode_len() == 0 {
            let r: Vec<String> = Vec::new();
            assert(r.deep_view() =~= cookie_pairs(s@));
            r
        } else {
            let mut r: Vec<String> = Vec::new();
            r.push(t.to_owned());
            assert(r.deep_view() =~= cookie_pairs(s@));
            r
        }
    } else {
        let head_raw = s.substring_char(0, k);
        let tail = s.substring_char(k + 1, len);
        assert(head_raw@ =~= s@.subrange(0, k as int));
        assert(tail@ =~= s@.subrange(k + 1, s@.len() as int));
        let head = trim(head_raw);
        let mut r = split_cookie_pairs(tail);
        if head.unicode_len() == 0 {
            r
        } else {
            r.insert(0, head.to_owned());
            assert(r.deep_view() =~= cookie_pairs(s@));
            r
        }
    }
}

} // verus!
