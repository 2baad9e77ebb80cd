use openaltid::error::MalformedMarkerError;
use openaltid::marker::{
    parse_marker, parse_marker_key, parse_marker_value, scan_pattern, CompletionMarker,
    MarkerError, MarkerOutcome,
};

#[test]
fn passed_value_is_classified() {
    assert_eq!(
        parse_marker_value("true:92:60"),
        Ok(MarkerOutcome::Passed { score: 92, minscore: 60 })
    );
}

#[test]
fn failed_value_is_classified() {
    assert_eq!(
        parse_marker_value("false:10:50"),
        Ok(MarkerOutcome::Failed { score: 10, minscore: 50 })
    );
}

#[test]
fn errored_value_is_classified() {
    assert_eq!(
        parse_marker_value("error:bad_input"),
        Ok(MarkerOutcome::Errored { reason: "bad_input".to_string() })
    );
}

#[test]
fn reason_is_the_second_field_as_it_stands() {
    assert_eq!(
        parse_marker_value("error:this is just a test"),
        Ok(MarkerOutcome::Errored { reason: "this is just a test".to_string() })
    );
    assert_eq!(
        parse_marker_value("error:"),
        Ok(MarkerOutcome::Errored { reason: String::new() })
    );
    assert_eq!(
        parse_marker_value("error:timeout:upstream"),
        Ok(MarkerOutcome::Errored { reason: "timeout".to_string() })
    );
    assert_eq!(
        parse_marker_value("error:zu spät"),
        Ok(MarkerOutcome::Errored { reason: "zu spät".to_string() })
    );
}

#[test]
fn fields_after_the_scores_are_not_read() {
    assert_eq!(
        parse_marker_value("true:400:350:extra:more"),
        Ok(MarkerOutcome::Passed { score: 400, minscore: 350 })
    );
}

#[test]
fn scores_may_be_negative() {
    assert_eq!(
        parse_marker_value("false:-3:0"),
        Ok(MarkerOutcome::Failed { score: -3, minscore: 0 })
    );
}

#[test]
fn unknown_tag_is_unsupported() {
    for value in
        ["", "maybe:1:2", "TRUE:1:2", "truex:1:2", "tru", " true:1:2", ":true:1:2", "failed"]
    {
        assert_eq!(parse_marker_value(value), Err(MarkerError::UnsupportedTag), "{}", value);
    }
}

#[test]
fn known_tag_with_bad_rest_is_malformed() {
    let malformed = Err(MarkerError::Malformed(MalformedMarkerError::Value));
    for value in [
        "true", "true:", "true:92", "true:92:", "true::60", "true:abc:60", "true:92:sixty",
        "true:9.5:60", "true:92:60 ", "false", "false:1", "false:1:x",
        "true:9223372036854775808:1", "error",
    ] {
        assert_eq!(parse_marker_value(value), malformed, "{}", value);
    }
}

#[test]
fn key_names_user_and_community() {
    assert_eq!(
        parse_marker_key("complete:155149108183695360:416407744246054912"),
        Some((155149108183695360, 416407744246054912))
    );
    assert_eq!(parse_marker_key("complete:0:18446744073709551615"), Some((0, u64::MAX)));
}

#[test]
fn suffix_of_a_key_is_not_read() {
    assert_eq!(
        parse_marker_key("complete:155149108183695360:416407744246054912:3"),
        Some((155149108183695360, 416407744246054912))
    );
    assert_eq!(parse_marker_key("complete:1:2:"), Some((1, 2)));
    assert_eq!(parse_marker_key("complete:1:2:not:a:number"), Some((1, 2)));
}

#[test]
fn key_out_of_shape_is_refused() {
    for key in [
        "", "complete", "complete:", "complete:1", "complete:1:", "complete::2", "complete:a:2",
        "complete:1:b", "complete:-1:2", "complete:1:18446744073709551616", "completed:1:2",
        "Complete:1:2", "uuid:1:2", ":1:2", "complete:1 :2",
    ] {
        assert_eq!(parse_marker_key(key), None, "{}", key);
    }
}

#[test]
fn marker_is_read_from_key_and_value() {
    assert_eq!(
        parse_marker("complete:7:9", "true:92:60"),
        Ok(CompletionMarker {
            user_id: 7,
            guild_id: 9,
            outcome: MarkerOutcome::Passed { score: 92, minscore: 60 },
        })
    );
    assert_eq!(
        parse_marker("complete:7:9:2", "error:bad_input"),
        Ok(CompletionMarker {
            user_id: 7,
            guild_id: 9,
            outcome: MarkerOutcome::Errored { reason: "bad_input".to_string() },
        })
    );
}

#[test]
fn unknown_tag_is_set_aside_before_the_key_is_read() {
    assert_eq!(parse_marker("failed", "pending"), Err(MarkerError::UnsupportedTag));
    assert_eq!(parse_marker("complete:x:2", "trueish:1:2"), Err(MarkerError::UnsupportedTag));
    assert_eq!(parse_marker("complete:1:2", "pending"), Err(MarkerError::UnsupportedTag));
}

#[test]
fn bad_key_is_reported_before_bad_value() {
    assert_eq!(
        parse_marker("complete:x:2", "true:1"),
        Err(MarkerError::Malformed(MalformedMarkerError::Key))
    );
    assert_eq!(
        parse_marker("complete:1:2", "true:1"),
        Err(MarkerError::Malformed(MalformedMarkerError::Value))
    );
    assert_eq!(
        parse_marker("failed", "true:1:2"),
        Err(MarkerError::Malformed(MalformedMarkerError::Key))
    );
}

#[test]
fn store_is_scanned_for_keys_that_begin_with_complete() {
    assert_eq!(scan_pattern(), "complete*");
}
