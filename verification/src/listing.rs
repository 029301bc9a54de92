use vstd::prelude::*;

verus! {

/// The views of a sequence of strings.
pub open spec fn strings_view(v: Seq<String>) -> Seq<Seq<char>> {
    v.map_values(|s: String| s@)
}

/// The line that stands for an empty listing.
pub open spec fn no_queues_line() -> Seq<char> {
    "No queues"@
}

/// What a queue listing prints: the endpoint URLs themselves, fully
/// materialized and in the order the client returned them, or one
/// distinguishable indicator line when there are none.
pub open spec fn spec_listing_lines(urls: Seq<Seq<char>>) -> Seq<Seq<char>> {
    if urls.len() == 0 {
        seq![no_queues_line()]
    } else {
        urls
    }
}

/// Turns the client's answer to a list-queues call (absent means no queues)
/// into the lines to print.
pub fn listing_lines(queue_urls: Option<Vec<String>>) -> (lines: Vec<String>)
    ensures
        strings_view(lines@) == spec_listing_lines(
            match queue_urls {
                Some(urls) => strings_view(urls@),
                None => Seq::<Seq<char>>::empty(),
            },
        ),
{
    match queue_urls {
        Some(urls) => {
            if urls.len() > 0 {
                urls
            } else {
                no_queues_lines()
            }
        },
        None => no_queues_lines(),
    }
}

/// The one-line listing used when the client reports no queues at all.
fn no_queues_lines() -> (lines: Vec<String>)
    ensures
        strings_view(lines@) == seq![no_queues_line()],
{
    let mut lines: Vec<String> = Vec::new();
    lines.push("No queues".to_owned());
    proof {
        assert(strings_view(lines@) =~= seq![no_queues_line()]);
    }
    lines
}

} // verus!
