use vstd::prelude::*;
use crate::json::{field, opt_str, or_default, text_of, Json};
use crate::shape::{BadgeData, BadgeView, Shape, ShapeView};

verus! {

/// The CLI arguments that describe the signed-in user.
pub fn command() -> (r: Vec<&'static str>)
    ensures
        r@.map_values(|a: &str| a@) == seq!["current-user"@, "me"@],
{
    let r = vec!["current-user", "me"];
    assert(r@.map_values(|a: &str| a@) =~= seq!["current-user"@, "me"@]);
    r
}

/// The name under which the user is shown: the user name, else the display
/// name, else `unknown`.
pub open spec fn user_name(json: Json) -> Seq<char> {
    match text_of(field(json, "userName"@)) {
        Some(n) => n,
        None => or_default(text_of(field(json, "displayName"@)), "unknown"@),
    }
}

/// The signed-in badge for the output of [`command`].
pub fn fetch(json: &Json) -> (r: Shape)
    ensures
        r@ == ShapeView::Badge(BadgeView { label: "Logged in as"@, value: user_name(*json) }),
{
    let value = match json.text_at("userName") {
        Some(n) => n.to_owned(),
        None => match json.text_at("displayName") {
            Some(n) => n.to_owned(),
            None => "unknown".to_owned(),
        },
    };
    Shape::Badge(BadgeData { label: "Logged in as".to_owned(), value })
}

/// The badge names the user by the user name where it is text, else by the
/// display name where that is text, else as unknown; no other member counts.
pub proof fn lemma_user_name(a: Json, b: Json)
    ensures
        text_of(field(a, "userName"@)) matches Some(n) ==> user_name(a) == n,
        text_of(field(a, "userName"@)) is None ==> (text_of(field(a, "displayName"@)) matches Some(
            n,
        ) ==> user_name(a) == n),
        text_of(field(a, "userName"@)) is None && text_of(field(a, "displayName"@)) is None
            ==> user_name(a) == "unknown"@,
        field(a, "userName"@) == field(b, "userName"@) && field(a, "displayName"@) == field(
            b,
            "displayName"@,
        ) ==> user_name(a) == user_name(b),
{
}

} // verus!
