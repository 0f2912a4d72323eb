//! Cache keys and the role session name derived from a subject.

use vstd::prelude::*;

verus! {

/// Key of the stored session of a subject.
pub open spec fn session_key_of(sub: Seq<char>) -> Seq<char> {
    "auth:cli:session:"@ + sub
}

/// Key of the pending authorization request of a state token.
pub open spec fn state_key_of(state: Seq<char>) -> Seq<char> {
    "auth:cli:state:"@ + state
}

/// Key of the pointer from a state token to the subject that completed the login.
/// It lives in a key space of its own, apart from sessions.
pub open spec fn pointer_key_of(state: Seq<char>) -> Seq<char> {
    "auth:cli:pointer:"@ + state
}

/// Returns the cache key of the session of a subject.
pub fn get_cli_session_key(sub: &str) -> (r: String)
    ensures
        r@ == session_key_of(sub@),
{
    String::from_str("auth:cli:session:").concat(sub)
}

/// Returns the cache key of the pending authorization request of a state token.
pub fn get_cli_state_key(state: &str) -> (r: String)
    ensures
        r@ == state_key_of(state@),
{
    String::from_str("auth:cli:state:").concat(state)
}

/// Returns the cache key of the pointer from a state token to its subject.
pub fn get_cli_pointer_key(state: &str) -> (r: String)
    ensures
        r@ == pointer_key_of(state@),
{
    String::from_str("auth:cli:pointer:").concat(state)
}

/// The three key spaces never meet: a state key, a pointer key and a session key
/// differ whatever tokens and subjects they are built from.
pub proof fn lemma_key_spaces_disjoint(a: Seq<char>, b: Seq<char>)
    ensures
        state_key_of(a) != pointer_key_of(b),
        state_key_of(a) != session_key_of(b),
        pointer_key_of(a) != session_key_of(b),
{
    reveal_strlit("auth:cli:session:");
    reveal_strlit("auth:cli:state:");
    reveal_strlit("auth:cli:pointer:");
    assert(state_key_of(a)[9] == 's');
    assert(pointer_key_of(b)[9] == 'p');
    assert(session_key_of(b)[10] == 'e');
    assert(state_key_of(a)[10] == 't');
    assert(pointer_key_of(a)[9] == 'p');
    assert(session_key_of(b)[9] == 's');
}

/// The characters that a role session name may hold.
pub open spec fn is_session_name_char(c: char) -> bool {
    ('a' <= c && c <= 'z') || ('A' <= c && c <= 'Z') || ('0' <= c && c <= '9') || c == '='
        || c == ',' || c == '.' || c == '@' || c == '-' || c == '_'
}

/// The longest role session name that the credential service accepts.
pub const MAX_ROLE_SESSION_NAME_LEN: usize = 64;

/// At most the first `MAX_ROLE_SESSION_NAME_LEN` elements of `s`.
pub open spec fn truncated(s: Seq<char>) -> Seq<char> {
    if s.len() <= MAX_ROLE_SESSION_NAME_LEN {
        s
    } else {
        s.take(MAX_ROLE_SESSION_NAME_LEN as int)
    }
}

/// The role session name of a subject: `cli-` and the subject, with every character
/// outside the allowed set dropped, cut to the maximum length.
pub open spec fn role_session_name_of(sub: Seq<char>) -> Seq<char> {
    truncated(("cli-"@ + sub).filter(|c: char| is_session_name_char(c)))
}

fn allowed_session_name_char(c: char) -> (r: bool)
    ensures
        r == is_session_name_char(c),
{
    ('a' <= c && c <= 'z') || ('A' <= c && c <= 'Z') || ('0' <= c && c <= '9') || c == '='
        || c == ',' || c == '.' || c == '@' || c == '-' || c == '_'
}

/// Relies on `String::push`: the character is appended at the end.
#[verifier::external_body]
fn push_char(s: &mut String, c: char)
    ensures
        final(s)@ == old(s)@.push(c),
{
    s.push(c)
}

/// Derives the role session name under which credentials are issued to a subject.
pub fn get_role_session_name(user_sub: &str) -> (r: String)
    ensures
        r@ == role_session_name_of(user_sub@),
{
    let full = String::from_str("cli-").concat(user_sub);
    let ghost allowed = |c: char| is_session_name_char(c);
    let n = full.as_str().unicode_len();
    let mut out = String::new();
    let mut i: usize = 0;
    while i < n
        invariant
            n == full@.len(),
            allowed == (|c: char| is_session_name_char(c)),
            full@ == "cli-"@ + user_sub@,
            0 <= i <= n,
            out@ == truncated(full@.take(i as int).filter(allowed)),
        decreases n - i,
    {
        let c = full.as_str().get_char(i);
        let ghost before = full@.take(i as int);
        assert(full@.take(i as int + 1) =~= before.push(c));
        let ghost kept = before.filter(allowed);
        let ok = allowed_session_name_char(c);
        proof {
            reveal(Seq::filter);
            assert(before.push(c).drop_last() =~= before);
            assert(before.push(c).last() == c);
            assert(allowed(c) == ok);
            if ok {
                assert(before.push(c).filter(allowed) == kept.push(c));
                if kept.len() >= MAX_ROLE_SESSION_NAME_LEN {
                    assert(kept.push(c).take(MAX_ROLE_SESSION_NAME_LEN as int) =~= truncated(kept));
                }
            } else {
                assert(before.push(c).filter(allowed) == kept);
            }
        }
        if ok && out.as_str().unicode_len() < MAX_ROLE_SESSION_NAME_LEN {
            push_char(&mut out, c);
        }
        i = i + 1;
    }
    assert(full@.take(n as int) =~= full@);
    out
}

/// A role session name holds only allowed characters, is at most
/// `MAX_ROLE_SESSION_NAME_LEN` long, and is never empty.
pub proof fn lemma_role_session_name_well_formed(sub: Seq<char>)
    ensures
        forall|i: int|
            0 <= i < role_session_name_of(sub).len() ==> is_session_name_char(
                #[trigger] role_session_name_of(sub)[i],
            ),
        role_session_name_of(sub).len() <= MAX_ROLE_SESSION_NAME_LEN,
        role_session_name_of(sub).len() > 0,
{
    let allowed = |c: char| is_session_name_char(c);
    let prefix = "cli-"@;
    let f = (prefix + sub).filter(allowed);
    broadcast use Seq::lemma_filter_pred;
    Seq::filter_distributes_over_add(prefix, sub, allowed);
    reveal_strlit("cli-");
    assert(prefix.len() == 4);
    assert(is_session_name_char(prefix[3]));
    assert(prefix.filter(allowed).len() > 0) by {
        reveal(Seq::filter);
    }
    assert forall|i: int| 0 <= i < role_session_name_of(sub).len() implies is_session_name_char(
        #[trigger] role_session_name_of(sub)[i],
    ) by {
        assert(role_session_name_of(sub)[i] == f[i]);
        assert(allowed(f[i]));
    }
}

} // verus!
