use stream_relay::commands::{
    channel_reply, decimal_text, ping_report, shard_status_line, signed_decimal_text, ShardStage,
};

#[test]
fn decimal_values() {
    assert_eq!(decimal_text(0), "0");
    assert_eq!(decimal_text(907), "907");
    assert_eq!(decimal_text(u128::MAX), "340282366920938463463374607431768211455");
    assert_eq!(signed_decimal_text(-42), "-42");
    assert_eq!(signed_decimal_text(i64::MIN), "-9223372036854775808");
    assert_eq!(signed_decimal_text(15), "15");
}

#[test]
fn shard_lines() {
    assert_eq!(
        shard_status_line(0, ShardStage::Connected, Some(42)),
        ":green_circle: **Shard 1** `42`ms"
    );
    assert_eq!(
        shard_status_line(2, ShardStage::Connected, None),
        ":cyclone: **Shard 3** `waiting for heartbeat`"
    );
    assert_eq!(
        shard_status_line(2, ShardStage::Resuming, None),
        ":cyclone: **Shard 2** `connecting`"
    );
    assert_eq!(
        shard_status_line(4, ShardStage::Disconnected, Some(9)),
        ":x: **Shard 4** `disconnected`"
    );
    assert_eq!(
        shard_status_line(u64::MAX, ShardStage::Connected, Some(1)),
        ":green_circle: **Shard 18446744073709551616** `1`ms"
    );
}

#[test]
fn ping_reply() {
    let lines = vec!["a".to_string(), "b".to_string()];
    assert_eq!(ping_report(12, &lines), ":ping_pong: Command roundtrip: `12`ms\na\nb");
    assert_eq!(ping_report(-3, &vec![]), ":ping_pong: Command roundtrip: `-3`ms\n");
}

#[test]
fn channel_replies() {
    assert_eq!(channel_reply(false, Some(5)), None);
    assert_eq!(channel_reply(true, Some(81)), Some("u mean <#81> ?".to_string()));
    assert_eq!(
        channel_reply(true, None),
        Some("No channel found from the given input.".to_string())
    );
}
