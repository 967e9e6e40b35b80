use anime_downloader::downloader::Downloader;
use anime_downloader::episodes::Episodes;
use anime_downloader::error::Error;
use anime_downloader::resolution::Resolution;

const MARKER: &str = "Страницы не существует или она была удалена.";

fn page_with_sources(srcs: &[&str]) -> String {
    let mut body = String::from("<html><body><video>");
    for s in srcs {
        body.push_str(&format!("<source src=\"{s}\">"));
    }
    body.push_str("</video></body></html>");
    body
}

fn missing_page() -> String {
    format!("<html><body>{MARKER}</body></html>")
}

#[test]
fn page_and_file_names_are_deterministic() {
    let d = Downloader::new("demo".to_string(), Episodes::AllEpisodes, Resolution::FullHD);
    assert_eq!(d.construct_url(3), "https://jut.su/demo/episode-3.html");
    assert_eq!(d.construct_url(12), "https://jut.su/demo/episode-12.html");
    assert_eq!(d.output_path(7), "demo/episode-7.mp4");
    // Re-running targets the same path; other episodes never share it.
    assert_eq!(d.output_path(7), d.output_path(7));
    assert_ne!(d.output_path(7), d.output_path(70));
}

#[test]
fn run_stops_at_first_missing_episode() {
    // Episodes 1 and 2 exist, episode 3 returns the marker: files for
    // 1 and 2 are planned, nothing past 3 is attempted.
    let d = Downloader::new("demo".to_string(), Episodes::AllEpisodes, Resolution::FullHD);
    let pages = vec![
        page_with_sources(&["https://cdn.example/ep1-fhd.mp4", "https://cdn.example/ep1-hd.mp4"]),
        page_with_sources(&["https://cdn.example/ep2-fhd.mp4"]),
        missing_page(),
    ];
    let (probed, plans) = d.plan_run(&pages);
    assert_eq!(probed, vec![1, 2, 3]);
    assert_eq!(plans.len(), 2);
    let targets: Vec<(String, String)> = plans
        .into_iter()
        .map(|p| {
            let job = p.unwrap();
            (d.output_path(job.episode), job.url)
        })
        .collect();
    assert_eq!(
        targets,
        vec![
            ("demo/episode-1.mp4".to_string(), "https://cdn.example/ep1-fhd.mp4".to_string()),
            ("demo/episode-2.mp4".to_string(), "https://cdn.example/ep2-fhd.mp4".to_string()),
        ]
    );
}

#[test]
fn episode_without_sources_is_no_video_links() {
    // Episode 1 exists but offers no <source> elements: the run
    // reports NoVideoLinksFound(1) and plans no download for it.
    let d = Downloader::new("demo".to_string(), Episodes::AllEpisodes, Resolution::FullHD);
    let pages = vec![page_with_sources(&[]), missing_page()];
    let (probed, plans) = d.plan_run(&pages);
    assert_eq!(probed, vec![1, 2]);
    assert_eq!(plans.len(), 1);
    assert!(matches!(plans[0], Err(Error::NoVideoLinksFound(1))));
    let outcomes = plans.into_iter().map(|p| p.map(|_| ())).collect();
    assert!(matches!(
        d.summarize(outcomes),
        Err(Error::NoVideoLinksFound(1))
    ));
}

#[test]
fn unpublished_tier_is_resolution_unavailable() {
    // Episode 1 has two candidates; SD maps to index 2, which does not
    // exist: ResolutionUnavailable(1, SD), nothing to download.
    let d = Downloader::new("demo".to_string(), Episodes::AllEpisodes, Resolution::SD);
    let pages = vec![
        page_with_sources(&["https://cdn.example/ep1-fhd.mp4", "https://cdn.example/ep1-hd.mp4"]),
        missing_page(),
    ];
    let (_, plans) = d.plan_run(&pages);
    assert_eq!(plans.len(), 1);
    assert!(matches!(
        plans[0],
        Err(Error::ResolutionUnavailable(1, Resolution::SD))
    ));
}

#[test]
fn requested_range_is_planned_in_order() {
    let d = Downloader::new(
        "demo".to_string(),
        Episodes::from_str("2-3").unwrap(),
        Resolution::HD,
    );
    let pages = vec![
        missing_page(),
        page_with_sources(&["https://cdn.example/ep2-fhd.mp4", "https://cdn.example/ep2-hd.mp4"]),
        page_with_sources(&["https://cdn.example/ep3-fhd.mp4", "https://cdn.example/ep3-hd.mp4"]),
    ];
    let (probed, plans) = d.plan_run(&pages);
    assert_eq!(probed, vec![2, 3]);
    let urls: Vec<String> = plans.into_iter().map(|p| p.unwrap().url).collect();
    assert_eq!(
        urls,
        vec![
            "https://cdn.example/ep2-hd.mp4".to_string(),
            "https://cdn.example/ep3-hd.mp4".to_string()
        ]
    );
}

#[test]
fn episode_without_a_prepared_page_counts_as_missing() {
    // The decision core treats an episode with no prepared body as a
    // missing page: probing stops right past the prepared ones.
    let d = Downloader::new("demo".to_string(), Episodes::AllEpisodes, Resolution::FullHD);
    let pages = vec![page_with_sources(&["https://cdn.example/ep1-fhd.mp4"])];
    let (probed, plans) = d.plan_run(&pages);
    assert_eq!(probed, vec![1, 2]);
    assert_eq!(plans.len(), 1);
}

#[test]
fn all_successes_summarize_the_run() {
    let d = Downloader::new("demo".to_string(), Episodes::AllEpisodes, Resolution::FullHD);
    let outcomes: Vec<Result<(), Error>> = vec![Ok(()), Ok(()), Ok(())];
    let summary = d.summarize(outcomes).unwrap();
    assert_eq!(summary.anime, "demo");
    assert_eq!(summary.episodes, 3);
}

#[test]
fn first_error_wins_in_task_order() {
    let d = Downloader::new("demo".to_string(), Episodes::AllEpisodes, Resolution::FullHD);
    let outcomes: Vec<Result<(), Error>> = vec![
        Ok(()),
        Err(Error::FetchFailed(2, "connection reset".to_string())),
        Err(Error::PersistFailed(3, "disk full".to_string())),
    ];
    match d.summarize(outcomes) {
        Err(Error::FetchFailed(2, cause)) => assert_eq!(cause, "connection reset"),
        other => panic!("expected the first error, got {other:?}"),
    }
}

#[test]
fn probe_and_directory_failures_surface_unchanged() {
    // Kinds the unverified rim constructs pass through aggregation
    // exactly as given.
    let d = Downloader::new("demo".to_string(), Episodes::AllEpisodes, Resolution::FullHD);
    let outcomes: Vec<Result<(), Error>> =
        vec![Err(Error::EpisodeProbeFailed(1, "timeout".to_string()))];
    assert!(matches!(
        d.summarize(outcomes),
        Err(Error::EpisodeProbeFailed(1, _))
    ));
    let outcomes: Vec<Result<(), Error>> =
        vec![Err(Error::DirectoryCreateFailed("permission denied".to_string()))];
    assert!(matches!(
        d.summarize(outcomes),
        Err(Error::DirectoryCreateFailed(_))
    ));
}
