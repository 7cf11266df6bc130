//! The headers that the eligibility lookup sends.

use vstd::prelude::*;

verus! {

/// The headers of a lookup request, as names and values in the order in which
/// they are set.
pub open spec fn header_table() -> Seq<(&'static str, &'static str)> {
    seq![
        ("accept", "text/x-component"),
        ("accept-language", "en-US,en;q=0.9"),
        ("cache-control", "no-cache"),
        ("content-type", "text/plain;charset=UTF-8"),
        ("cookie", "_ga=GA1.1.1149305761.1729541261; _ga_XR3MGVSHFC=GS1.1.1729558399.3.1.1729558399.0.0.0; _ga_0CM3JHPD29=GS1.1.1729580355.1.1.1729580661.0.0.0; _vcrcs=1.1729581708.3600.NjMzMTc4NTk3MDEyNTg3YTBlYTY1NDhjZjczYjJhYjE=.5d4f132acc2af79b849b411174d86b27"),
        ("dnt", "1"),
        ("next-action", "2ab5dbb719cdef833b891dc475986d28393ae963"),
        ("next-router-state-tree", "%5B%22%22%2C%7B%22children%22%3A%5B%22(claim)%22%2C%7B%22children%22%3A%5B%22__PAGE__%22%2C%7B%7D%2C%22%2F%3Fstep%3D4%22%2C%22refresh%22%5D%7D%5D%7D%2Cnull%2Cnull%2Ctrue%5D"),
        ("origin", "https://claim.scroll.io"),
        ("pragma", "no-cache"),
        ("priority", "u=1, i"),
        ("referer", "https://claim.scroll.io/?step=4"),
        ("sec-ch-ua", "\"Not?A_Brand\";v=\"99\", \"Chromium\";v=\"130\""),
        ("sec-ch-ua-mobile", "?0"),
        ("sec-ch-ua-platform", "\"macOS\""),
        ("sec-fetch-dest", "empty"),
        ("sec-fetch-mode", "cors"),
        ("sec-fetch-site", "same-origin"),
        ("user-agent", "Mozilla/5.0 (Macintosh; Intel Mac OS X 10_15_7) AppleWebKit/537.36 (KHTML, like Gecko) Chrome/130.0.0.0 Safari/537.36"),
    ]
}

/// The headers of a lookup request.
pub fn get_headers() -> (headers: Vec<(&'static str, &'static str)>)
    ensures
        headers@ =~= header_table(),
{
    let mut headers: Vec<(&'static str, &'static str)> = Vec::new();
    headers.push(("accept", "text/x-component"));
    headers.push(("accept-language", "en-US,en;q=0.9"));
    headers.push(("cache-control", "no-cache"));
    headers.push(("content-type", "text/plain;charset=UTF-8"));
    headers.push(("cookie", "_ga=GA1.1.1149305761.1729541261; _ga_XR3MGVSHFC=GS1.1.1729558399.3.1.1729558399.0.0.0; _ga_0CM3JHPD29=GS1.1.1729580355.1.1.1729580661.0.0.0; _vcrcs=1.1729581708.3600.NjMzMTc4NTk3MDEyNTg3YTBlYTY1NDhjZjczYjJhYjE=.5d4f132acc2af79b849b411174d86b27"));
    headers.push(("dnt", "1"));
    headers.push(("next-action", "2ab5dbb719cdef833b891dc475986d28393ae963"));
    headers.push(("next-router-state-tree", "%5B%22%22%2C%7B%22children%22%3A%5B%22(claim)%22%2C%7B%22children%22%3A%5B%22__PAGE__%22%2C%7B%7D%2C%22%2F%3Fstep%3D4%22%2C%22refresh%22%5D%7D%5D%7D%2Cnull%2Cnull%2Ctrue%5D"));
    headers.push(("origin", "https://claim.scroll.io"));
    headers.push(("pragma", "no-cache"));
    headers.push(("priority", "u=1, i"));
    headers.push(("referer", "https://claim.scroll.io/?step=4"));
    headers.push(("sec-ch-ua", "\"Not?A_Brand\";v=\"99\", \"Chromium\";v=\"130\""));
    headers.push(("sec-ch-ua-mobile", "?0"));
    headers.push(("sec-ch-ua-platform", "\"macOS\""));
    headers.push(("sec-fetch-dest", "empty"));
    headers.push(("sec-fetch-mode", "cors"));
    headers.push(("sec-fetch-site", "same-origin"));
    headers.push(("user-agent", "Mozilla/5.0 (Macintosh; Intel Mac OS X 10_15_7) AppleWebKit/537.36 (KHTML, like Gecko) Chrome/130.0.0.0 Safari/537.36"));
    headers
}

} // verus!
