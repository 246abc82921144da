use track_fetcher::search::{
    get_search_result_priority, parse_and_validate_auth_state, select_search_results, AuthError,
    SearchRow, TopicData,
};
use track_fetcher::types::{DownloadId, TopicId};

fn result(id: u64, title: &str, seeds: u64) -> TopicData {
    TopicData {
        title: title.into(),
        topic_id: TopicId(id),
        download_id: DownloadId(id),
        seeds_number: seeds,
    }
}

fn row(category: &str, topic: TopicData) -> SearchRow {
    SearchRow {
        category: category.into(),
        topic,
    }
}

#[test]
fn priority_formula_values() {
    assert_eq!(get_search_result_priority(&result(1, "X - FLAC (tracks), lossless", 30)), 0);
    assert_eq!(get_search_result_priority(&result(1, "X, MP3, 320 kbps", 9)), 5 + 10 + 3);
    assert_eq!(get_search_result_priority(&result(1, "X, AAC 256 kbps", 2)), 15 + 20 + 3);
    assert_eq!(get_search_result_priority(&result(1, "X, ALAC, lossless", 3)), 10 + 3);
    assert_eq!(get_search_result_priority(&result(1, "nothing", 0)), 160);
    assert_eq!(get_search_result_priority(&result(1, "nothing", 10)), 152);
    assert_eq!(get_search_result_priority(&result(1, "nothing", 20)), 151);
}

#[test]
fn more_seeds_never_rank_worse() {
    let title = "Artist - Album, MP3, 320 kbps";
    let counts = [0u64, 1, 9, 10, 19, 20, 29, 30, 1000];
    for w in counts.windows(2) {
        let fewer = get_search_result_priority(&result(1, title, w[0]));
        let more = get_search_result_priority(&result(1, title, w[1]));
        assert!(more <= fewer);
    }
}

#[test]
fn flac_lossless_marker_improves_priority() {
    for title in ["Artist - Album, MP3, 320 kbps", "Artist - Album", "Artist FLAC"] {
        let plain = get_search_result_priority(&result(1, title, 5));
        let marked = get_search_result_priority(&result(1, &format!("{}, FLAC, lossless", title), 5));
        assert!(marked < plain);
    }
}

#[test]
fn rows_are_filtered_and_ranked() {
    let rows = vec![
        row("Lossy", result(1, "A, MP3, 320 kbps", 50)),
        row("Lossless", result(2, "B, MP3, 320 kbps", 50)),
        row("LOSSLESS", result(3, "C, FLAC (image+.cue), lossless", 50)),
        row("lossless audio", result(4, "D, FLAC (tracks), lossless", 5)),
        row("Lossless", result(5, "E, AAC 256 kbps", 50)),
        row("jazz", result(6, "F, FLAC, lossless", 50)),
        row("LOSSLESS", result(7, "G, FLAC (tracks), lossless", 50)),
        row("Lossless", result(8, "H, MP3, 320 kbps", 50)),
    ];
    let picked: Vec<u64> = select_search_results(rows)
        .iter()
        .map(|t| t.topic_id.0)
        .collect();
    assert_eq!(picked, vec![7, 4, 1, 2, 8, 5]);
}

#[test]
fn no_rows_give_no_results() {
    assert!(select_search_results(vec![]).is_empty());
}

#[test]
fn auth_state_errors_in_order() {
    assert_eq!(
        parse_and_validate_auth_state("введите код подтверждения неверный пароль log-out-icon"),
        Err(AuthError::CaptchaVerificationIsRequired)
    );
    assert_eq!(
        parse_and_validate_auth_state("<p>неверный пароль</p> log-out-icon"),
        Err(AuthError::IncorrectPasswordText)
    );
    assert_eq!(
        parse_and_validate_auth_state("<html></html>"),
        Err(AuthError::UnknownAuthError)
    );
    assert_eq!(parse_and_validate_auth_state("<a class=\"log-out-icon\">"), Ok(()));
}
