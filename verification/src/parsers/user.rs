use vstd::prelude::*;

use crate::error::ScraperError;
use crate::models::User;
use crate::scrape::{selected_texts, select_texts};
use crate::text::{
    join_sp, lemma_join_nonempty, lemma_tokens_nonempty, tokens_of, join_spaces, split_ws,
};
use vstd::string::{StrSliceExecFns, StringExecFns};

verus! {

/// The selector of the single profile-text node of the dashboard.
pub open spec fn profile_selector() -> Seq<char> {
    ".user-profile .profile-text"@
}

/// The user a profile text denotes: its final whitespace-separated token is
/// the identity number, the remaining tokens joined are the name. Both must
/// be non-empty, so fewer than two tokens yield nothing.
pub open spec fn profile_of(text: Seq<char>) -> Option<(Seq<char>, Seq<char>)> {
    let toks = tokens_of(text);
    if toks.len() >= 2 {
        Some((join_sp(toks.drop_last()), toks.last()))
    } else {
        None
    }
}

/// Splits a profile text into the user's name and identity number. On
/// success, both are non-empty.
pub fn parse_profile_text(text: &str) -> (r: Result<User, ScraperError>)
    ensures
        r matches Ok(u) ==> profile_of(text@) == Some((u.name@, u.nim@)),
        r matches Ok(u) ==> u.name@.len() > 0 && u.nim@.len() > 0,
        r is Ok <==> profile_of(text@) is Some,
        r is Err ==> r matches Err(ScraperError::ParsingError(_)),
{
    let toks = split_ws(text);
    if toks.len() == 0 {
        return Err(ScraperError::ParsingError(String::from_str("could not extract the identity number")));
    }
    if toks.len() == 1 {
        return Err(ScraperError::ParsingError(String::from_str("could not extract the user name")));
    }
    let nim = toks[toks.len() - 1].clone();
    let name = join_spaces(&toks, 0, toks.len() - 1);
    proof {
        let tv = toks.deep_view();
        assert(tv.subrange(0, tv.len() - 1) =~= tv.drop_last());
        assert(nim@ == tv.last());
        lemma_tokens_nonempty(text@);
        assert(tv.drop_last()[0] == tokens_of(text@)[0]);
        lemma_join_nonempty(tv.drop_last());
    }
    Ok(User { name, nim })
}

/// Parses the dashboard HTML into the user's profile.
///
/// The first node the profile selector matches carries the profile text; its
/// absence is an element-not-found error, and a text that does not hold a
/// name and an identity number is a parsing error.
pub fn parse_user_from_html(html: &str) -> (r: Result<User, ScraperError>)
    ensures
        r matches Ok(u) ==> selected_texts(html@, profile_selector()).len() > 0 && profile_of(
            selected_texts(html@, profile_selector())[0],
        ) == Some((u.name@, u.nim@)),
        r is Ok <==> selected_texts(html@, profile_selector()).len() > 0 && profile_of(
            selected_texts(html@, profile_selector())[0],
        ) is Some,
        selected_texts(html@, profile_selector()).len() == 0 ==> r matches Err(
            ScraperError::ElementNotFound(_),
        ),
        r is Err ==> (r matches Err(ScraperError::ElementNotFound(_)) || r matches Err(
            ScraperError::ParsingError(_),
        )),
{
    let texts = select_texts(html, ".user-profile .profile-text");
    if texts.len() == 0 {
        return Err(ScraperError::ElementNotFound(String::from_str("User profile text element")));
    }
    let r = parse_profile_text(texts[0].as_str());
    proof {
        assert(texts.deep_view()[0] == texts@[0]@);
    }
    r
}

} // verus!
