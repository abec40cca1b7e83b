//! Text of the read API's index page.

use vstd::prelude::*;
use vstd::string::StringExecFns;

verus! {

/// The address the read API serves on.
pub const BASE_URL: &'static str = "http://localhost:8081/";

/// An HTML link to `end_point` under `base_url`, followed by a line break.
pub open spec fn link_text(base_url: Seq<char>, end_point: Seq<char>) -> Seq<char> {
    "<a href=\""@ + base_url + end_point + "\">"@ + end_point + "</a><br>"@
}

/// The index page: a heading, then a link to each endpoint.
pub open spec fn index_text(base_url: Seq<char>) -> Seq<char> {
    "<div> <h1>Endpoints:</h1> \r"@ + "GET \r <br>"@
        + link_text(base_url, "sound"@)
        + link_text(base_url, "sensors"@)
        + link_text(base_url, "sound/sorted"@)
        + link_text(base_url, "sound/sorted/limit?limit_amount=10"@)
        + link_text(base_url, "logs"@)
        + link_text(base_url, "logs/limit?limit_amount=10"@)
        + "</div>"@
}

pub fn get_link_string(base_url: &str, end_point: &str) -> (r: String)
    ensures
        r@ == link_text(base_url@, end_point@),
{
    let mut r = String::from_str("<a href=\"");
    r.append(base_url);
    r.append(end_point);
    r.append("\">");
    r.append(end_point);
    r.append("</a><br>");
    assert(r@ =~= link_text(base_url@, end_point@));
    r
}

/// The index page, listing every endpoint under `base_url`.
pub fn index_page(base_url: &str) -> (r: String)
    ensures
        r@ == index_text(base_url@),
{
    let mut r = String::from_str("<div> <h1>Endpoints:</h1> \r");
    r.append("GET \r <br>");
    r.append(get_link_string(base_url, "sound").as_str());
    r.append(get_link_string(base_url, "sensors").as_str());
    r.append(get_link_string(base_url, "sound/sorted").as_str());
    r.append(get_link_string(base_url, "sound/sorted/limit?limit_amount=10").as_str());
    r.append(get_link_string(base_url, "logs").as_str());
    r.append(get_link_string(base_url, "logs/limit?limit_amount=10").as_str());
    r.append("</div>");
    assert(r@ =~= index_text(base_url@));
    r
}

} // verus!
