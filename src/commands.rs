//! Replies of the bot's chat commands, computed from plain values: the
//! latency report of `ping` and the answer of `channel`.

use vstd::prelude::*;

verus! {

pub open spec fn digit_text(d: nat) -> Seq<char> {
    if d == 0 {
        "0"@
    } else if d == 1 {
        "1"@
    } else if d == 2 {
        "2"@
    } else if d == 3 {
        "3"@
    } else if d == 4 {
        "4"@
    } else if d == 5 {
        "5"@
    } else if d == 6 {
        "6"@
    } else if d == 7 {
        "7"@
    } else if d == 8 {
        "8"@
    } else {
        "9"@
    }
}

/// `n` written in decimal, without leading zeros.
pub open spec fn decimal(n: nat) -> Seq<char>
    decreases n,
{
    if n < 10 {
        digit_text(n)
    } else {
        decimal(n / 10) + digit_text(n % 10)
    }
}

/// `n` written in decimal, with a minus sign where negative.
pub open spec fn signed_decimal(n: int) -> Seq<char> {
    if n < 0 {
        "-"@ + decimal((-n) as nat)
    } else {
        decimal(n as nat)
    }
}

fn digit_str(d: u128) -> (r: &'static str)
    requires
        d < 10,
    ensures
        r@ == digit_text(d as nat),
{
    if d == 0 {
        "0"
    } else if d == 1 {
        "1"
    } else if d == 2 {
        "2"
    } else if d == 3 {
        "3"
    } else if d == 4 {
        "4"
    } else if d == 5 {
        "5"
    } else if d == 6 {
        "6"
    } else if d == 7 {
        "7"
    } else if d == 8 {
        "8"
    } else {
        "9"
    }
}

/// `n` in decimal.
pub fn decimal_text(n: u128) -> (r: String)
    ensures
        r@ == decimal(n as nat),
    decreases n,
{
    if n < 10 {
        String::from_str(digit_str(n))
    } else {
        decimal_text(n / 10).concat(digit_str(n % 10))
    }
}

/// `n` in decimal, with a minus sign where negative.
pub fn signed_decimal_text(n: i64) -> (r: String)
    ensures
        r@ == signed_decimal(n as int),
{
    if n < 0 {
        let m: u128 = (-(n as i128)) as u128;
        String::from_str("-").concat(decimal_text(m).as_str())
    } else {
        decimal_text(n as u128)
    }
}

/// The connection stage of one shard of the chat gateway.
#[derive(Clone, Copy, Debug, PartialEq, Eq, Structural)]
pub enum ShardStage {
    Connected,
    Connecting,
    Handshake,
    Resuming,
    Identifying,
    Disconnected,
}

/// The report line of shard `id`: a connected shard is numbered from one and
/// shows its heartbeat latency (or that it awaits one); the others are
/// numbered by their id and show whether they are connecting.
pub open spec fn shard_line(id: nat, stage: ShardStage, latency_ms: Option<nat>) -> Seq<char> {
    match stage {
        ShardStage::Connected => match latency_ms {
            Some(ms) => ":green_circle: **Shard "@ + decimal(id + 1) + "** `"@ + decimal(ms)
                + "`ms"@,
            None => ":cyclone: **Shard "@ + decimal(id + 1) + "** `waiting for heartbeat`"@,
        },
        ShardStage::Disconnected => ":x: **Shard "@ + decimal(id) + "** `disconnected`"@,
        _ => ":cyclone: **Shard "@ + decimal(id) + "** `connecting`"@,
    }
}

/// The report line of one shard; see [`shard_line`].
pub fn shard_status_line(id: u64, stage: ShardStage, latency_ms: Option<u128>) -> (r: String)
    ensures
        r@ == shard_line(
            id as nat,
            stage,
            match latency_ms {
                Some(ms) => Some(ms as nat),
                None => None,
            },
        ),
{
    match stage {
        ShardStage::Connected => {
            let shown = decimal_text(id as u128 + 1);
            match latency_ms {
                Some(ms) => String::from_str(":green_circle: **Shard ").concat(
                    shown.as_str(),
                ).concat("** `").concat(decimal_text(ms).as_str()).concat("`ms"),
                None => String::from_str(":cyclone: **Shard ").concat(shown.as_str()).concat(
                    "** `waiting for heartbeat`",
                ),
            }
        },
        ShardStage::Disconnected => String::from_str(":x: **Shard ").concat(
            decimal_text(id as u128).as_str(),
        ).concat("** `disconnected`"),
        _ => String::from_str(":cyclone: **Shard ").concat(decimal_text(id as u128).as_str()).concat(
            "** `connecting`",
        ),
    }
}

/// The lines joined with line breaks between them.
pub open spec fn joined(lines: Seq<Seq<char>>) -> Seq<char>
    decreases lines.len(),
{
    if lines.len() == 0 {
        seq![]
    } else if lines.len() == 1 {
        lines[0]
    } else {
        joined(lines.drop_last()) + "\n"@ + lines.last()
    }
}

/// The `ping` reply: the command's round trip, then one line per shard.
pub open spec fn ping_text(round_trip_ms: int, lines: Seq<Seq<char>>) -> Seq<char> {
    ":ping_pong: Command roundtrip: `"@ + signed_decimal(round_trip_ms) + "`ms\n"@ + joined(lines)
}

/// The `ping` reply; see [`ping_text`].
pub fn ping_report(round_trip_ms: i64, lines: &Vec<String>) -> (r: String)
    ensures
        r@ == ping_text(round_trip_ms as int, lines@.map_values(|s: String| s@)),
{
    let ghost views = lines@.map_values(|s: String| s@);
    let mut body = String::new();
    let mut i: usize = 0;
    while i < lines.len()
        invariant
            i <= lines.len(),
            views == lines@.map_values(|s: String| s@),
            body@ == joined(views.take(i as int)),
        decreases lines.len() - i,
    {
        assert(views.take(i + 1).drop_last() =~= views.take(i as int));
        if i > 0 {
            body.append("\n");
        }
        body.append(lines[i].as_str());
        i = i + 1;
        proof {
            if i == 1 {
                assert(joined(views.take(0)) =~= seq![]);
                assert(body@ =~= views.take(1)[0]);
            }
        }
    }
    assert(views.take(i as int) =~= views);
    String::from_str(":ping_pong: Command roundtrip: `").concat(
        signed_decimal_text(round_trip_ms).as_str(),
    ).concat("`ms\n").concat(body.as_str())
}

/// The `channel` reply: a mention of the channel found, or that none was.
pub open spec fn channel_text(found: Option<u64>) -> Seq<char> {
    match found {
        Some(id) => "u mean <#"@ + decimal(id as nat) + "> ?"@,
        None => "No channel found from the given input."@,
    }
}

/// The `channel` reply, given only inside a server; see [`channel_text`].
pub fn channel_reply(in_guild: bool, found: Option<u64>) -> (r: Option<String>)
    ensures
        r is Some <==> in_guild,
        r matches Some(s) ==> s@ == channel_text(found),
{
    if !in_guild {
        return None;
    }
    match found {
        Some(id) => Some(
            String::from_str("u mean <#").concat(decimal_text(id as u128).as_str()).concat(
                "> ?",
            ),
        ),
        None => Some(String::from_str("No channel found from the given input.")),
    }
}

} // verus!
