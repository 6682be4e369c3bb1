use rust_labs::episodes::{episode_entry, episode_summary, EpisodeRow};

fn row(title: &str, runtime: &str, season: i32, episode: i32) -> EpisodeRow {
    EpisodeRow { title: title.to_string(), runtime: runtime.to_string(), season, episode }
}

#[test]
fn no_rows() {
    assert_eq!(episode_summary(&Vec::new()), "No episodes found.");
}

#[test]
fn one_row() {
    let r = row("Blink", "45", 3, 10);
    assert_eq!(episode_entry(&r), "Title: Blink\nRuntime: 45 minutes\nSeason: 3\nEpisode: 10");
    assert_eq!(episode_summary(&vec![r]), "Title: Blink\nRuntime: 45 minutes\nSeason: 3\nEpisode: 10");
}

#[test]
fn two_rows_are_separated_by_a_blank_line() {
    let rows = vec![row("The Eleventh Hour", "65", 5, 1), row("Heaven Sent", "55", -1, 0)];
    assert_eq!(
        episode_summary(&rows),
        "Title: The Eleventh Hour\nRuntime: 65 minutes\nSeason: 5\nEpisode: 1\n\n\
         Title: Heaven Sent\nRuntime: 55 minutes\nSeason: -1\nEpisode: 0"
    );
}
