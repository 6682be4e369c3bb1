//! The text that answers an episode search.

use vstd::prelude::*;
use crate::textops::{int_text, push_int_text};

verus! {

/// One episode found by a search: its title, its runtime in minutes as
/// stored, its season and its place in the season.
pub struct EpisodeRow {
    pub title: String,
    pub runtime: String,
    pub season: i32,
    pub episode: i32,
}

/// The four lines that describe one episode.
pub open spec fn entry_text(row: EpisodeRow) -> Seq<char> {
    "Title: "@ + row.title@ + "\nRuntime: "@ + row.runtime@ + " minutes\nSeason: "@ + int_text(
        row.season as int,
    ) + "\nEpisode: "@ + int_text(row.episode as int)
}

/// The items of `list` with `sep` between each two of them.
pub open spec fn joined(list: Seq<Seq<char>>, sep: Seq<char>) -> Seq<char>
    decreases list.len(),
{
    if list.len() == 0 {
        seq![]
    } else if list.len() == 1 {
        list[0]
    } else {
        joined(list.drop_last(), sep) + sep + list.last()
    }
}

/// The descriptions of `rows`, in order.
pub open spec fn entries(rows: Seq<EpisodeRow>) -> Seq<Seq<char>> {
    rows.map_values(|row: EpisodeRow| entry_text(row))
}

/// The answer to a search: "No episodes found." when nothing matched,
/// otherwise the descriptions of the episodes separated by blank lines.
pub open spec fn summary_text(rows: Seq<EpisodeRow>) -> Seq<char> {
    if rows.len() == 0 {
        "No episodes found."@
    } else {
        joined(entries(rows), "\n\n"@)
    }
}

/// The description of one episode:
/// "Title: {title}\nRuntime: {runtime} minutes\nSeason: {season}\nEpisode: {episode}".
pub fn episode_entry(row: &EpisodeRow) -> (r: String)
    ensures
        r@ == entry_text(*row),
{
    let mut r = String::from_str("Title: ");
    r.append(row.title.as_str());
    r.append("\nRuntime: ");
    r.append(row.runtime.as_str());
    r.append(" minutes\nSeason: ");
    push_int_text(&mut r, row.season);
    r.append("\nEpisode: ");
    push_int_text(&mut r, row.episode);
    r
}

/// The answer to an episode search that found `rows`.
pub fn episode_summary(rows: &Vec<EpisodeRow>) -> (r: String)
    ensures
        r@ == summary_text(rows@),
{
    if rows.len() == 0 {
        return String::from_str("No episodes found.");
    }
    let ghost list = entries(rows@);
    let mut r = String::new();
    let mut i: usize = 0;
    while i < rows.len()
        invariant
            i <= rows.len(),
            list == entries(rows@),
            list.len() == rows.len(),
            r@ =~= joined(list.take(i as int), "\n\n"@),
        decreases rows.len() - i,
    {
        let entry = episode_entry(&rows[i]);
        if i != 0 {
            r.append("\n\n");
        }
        r.append(entry.as_str());
        assert(list.take(i + 1).drop_last() =~= list.take(i as int));
        assert(list[i as int] == entry_text(rows@[i as int]));
        i = i + 1;
    }
    assert(list.take(rows.len() as int) =~= list);
    r
}


/// The answer for one episode is its description alone, and the answer for
/// two or more is the answer for all but the last, a blank line ("\n\n"),
/// and the description of the last: every two neighbouring episodes are
/// separated by exactly one blank line.
pub proof fn lemma_summary_appends_entries(rows: Seq<EpisodeRow>)
    ensures
        rows.len() == 1 ==> summary_text(rows) == entry_text(rows[0]),
        rows.len() >= 2 ==> summary_text(rows) == summary_text(rows.drop_last()) + "\n\n"@
            + entry_text(rows.last()),
{
    if rows.len() >= 2 {
        assert(entries(rows).drop_last() =~= entries(rows.drop_last()));
    }
}

} // verus!
