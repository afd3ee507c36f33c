//! Decision rules of the catalog-fetch glue around the relay: which
//! numeric category a marketplace search uses, how many results a page
//! may ask for, and when a failed fetch is tried again.
//!
//! The fetches themselves are plain HTTP made by the surrounding
//! program; everything it decides — classify, plan, back off — stands
//! here.

use vstd::prelude::*;

verus! {

/// Most fetch attempts made against the catalog before giving up.
pub const MAX_FETCH_ATTEMPTS: u32 = 3;

/// Results a search asks for when the caller names no figure.
pub const DEFAULT_PAGE_SIZE: u32 = 10;

/// Most results a creator-store page may ask for.
pub const MAX_PAGE_SIZE: u32 = 100;

/// The page size a marketplace search requests: the caller's figure as
/// it stands, or the default. The marketplace path imposes no cap of
/// its own.
pub fn marketplace_page_size(requested: Option<u32>) -> (n: u32)
    ensures
        requested is None ==> n == DEFAULT_PAGE_SIZE,
        requested matches Some(l) ==> n == l,
{
    match requested {
        None => DEFAULT_PAGE_SIZE,
        Some(l) => l,
    }
}

/// The page size a creator-store search requests: the caller's figure,
/// defaulted and clamped to what that service accepts.
pub fn effective_page_size(requested: Option<u32>) -> (n: u32)
    ensures
        requested is None ==> n == DEFAULT_PAGE_SIZE,
        requested matches Some(l) ==> n == if l > MAX_PAGE_SIZE {
            MAX_PAGE_SIZE
        } else {
            l
        },
{
    match requested {
        None => DEFAULT_PAGE_SIZE,
        Some(l) => if l > MAX_PAGE_SIZE {
            MAX_PAGE_SIZE
        } else {
            l
        },
    }
}

/// Extra wait imposed after the catalog answers "too many requests", in
/// milliseconds.
pub const RATE_LIMIT_PAUSE_MS: u64 = 5000;

/// The decimal digit string of `n`, most significant first, without
/// leading zeroes, as ASCII bytes.
pub open spec fn decimal_spec(n: nat) -> Seq<u8>
    decreases n,
{
    if n < 10 {
        seq![(n + 0x30) as u8]
    } else {
        decimal_spec(n / 10).push(((n % 10) + 0x30) as u8)
    }
}

/// Renders `n` in decimal, as a downloaded asset's default file name
/// requires of its id.
pub fn decimal_digits(n: u64) -> (digits: Vec<u8>)
    ensures
        digits@ == decimal_spec(n as nat),
    decreases n,
{
    if n < 10 {
        let mut v: Vec<u8> = Vec::new();
        v.push((n as u8) + 0x30);
        proof {
            assert(v@ =~= decimal_spec(n as nat));
        }
        v
    } else {
        let mut v = decimal_digits(n / 10);
        v.push(((n % 10) as u8) + 0x30);
        v
    }
}

/// `s` with every space turned into an underscore. A space is a single
/// byte in UTF-8 and never part of a longer sequence, so the byte-wise
/// replacement is exactly the character-wise one and keeps the text
/// valid.
pub open spec fn underscored_spec(s: Seq<u8>) -> Seq<u8> {
    s.map_values(
        |b: u8|
            if b == 0x20 {
                0x5f as u8
            } else {
                b
            },
    )
}

/// The file stem an installed asset is saved under: its name with
/// spaces turned into underscores, an underscore, then the asset id in
/// decimal.
pub fn asset_file_stem(name: &[u8], asset_id: u64) -> (stem: Vec<u8>)
    ensures
        stem@ == underscored_spec(name@) + seq![0x5f as u8] + decimal_spec(asset_id as nat),
{
    let mut stem: Vec<u8> = Vec::new();
    let mut i: usize = 0;
    while i < name.len()
        invariant
            i <= name.len(),
            stem@ == underscored_spec(name@.subrange(0, i as int)),
        decreases name.len() - i,
    {
        let b = name[i];
        if b == 0x20 {
            stem.push(0x5f);
        } else {
            stem.push(b);
        }
        proof {
            assert(underscored_spec(name@.subrange(0, i + 1)) =~= underscored_spec(
                name@.subrange(0, i as int),
            ).push(
                if name@[i as int] == 0x20 {
                    0x5f as u8
                } else {
                    name@[i as int]
                },
            ));
        }
        i += 1;
    }
    proof {
        assert(name@.subrange(0, name@.len() as int) =~= name@);
    }
    stem.push(0x5f);
    let mut digits = decimal_digits(asset_id);
    stem.append(&mut digits);
    proof {
        assert(stem@ =~= underscored_spec(name@) + seq![0x5f as u8] + decimal_spec(
            asset_id as nat,
        ));
    }
    stem
}

/// The asset kinds the marketplace search distinguishes. Anything that
/// is not audio is searched as a model.
#[derive(Clone, Copy, Debug, PartialEq, Eq)]
pub enum MarketKind {
    Audio,
    Model,
}

/// The kind a marketplace search names in its optional asset-type
/// field: the audio type searches audio; anything else — including an
/// absent field — searches models.
pub fn market_kind(asset_type: &Option<String>) -> (k: MarketKind)
    ensures
        match asset_type {
            Some(s) => k == if s@ == "Audio"@ {
                MarketKind::Audio
            } else {
                MarketKind::Model
            },
            None => k == MarketKind::Model,
        },
{
    match asset_type {
        Some(s) => {
            let audio: String = "Audio".to_owned();
            if s.eq(&audio) {
                MarketKind::Audio
            } else {
                MarketKind::Model
            }
        },
        None => MarketKind::Model,
    }
}

/// The marketplace's numeric search category for a kind.
pub fn catalog_category(kind: MarketKind) -> (c: u32)
    ensures
        kind == MarketKind::Audio ==> c == 9,
        kind == MarketKind::Model ==> c == 11,
{
    match kind {
        MarketKind::Audio => 9,
        MarketKind::Model => 11,
    }
}

/// How one fetch attempt against the catalog ended.
#[derive(Clone, Copy, Debug, PartialEq, Eq)]
pub enum AttemptOutcome {
    /// A success status whose body parsed.
    Delivered,
    /// A success status whose body could not be parsed.
    MalformedBody,
    /// A request-timeout or gateway-timeout status.
    TimedOut,
    /// A too-many-requests status.
    RateLimited,
    /// Any other client-error status: the request itself was refused.
    Rejected,
    /// Any other error status.
    Failed,
    /// No response came back at all.
    NoResponse,
}

/// What the fetch loop does next.
#[derive(Clone, Copy, Debug, PartialEq, Eq)]
pub enum FetchStep {
    /// Use the delivered body.
    Accept,
    /// Wait this many milliseconds, then try once more.
    Retry { delay_ms: u64 },
    /// Stop: the request is hopeless, or the attempts are spent.
    GiveUp,
}

/// Sorts a received HTTP answer into the outcomes the retry plan
/// distinguishes. `status` is the response's status code and
/// `body_parsed` whether its body parsed (which only matters on a
/// success status); an attempt with no response at all is classified by
/// the caller as NoResponse without a status to sort.
pub fn classify_attempt(status: u16, body_parsed: bool) -> (o: AttemptOutcome)
    ensures
        200 <= status < 300 && body_parsed ==> o == AttemptOutcome::Delivered,
        200 <= status < 300 && !body_parsed ==> o == AttemptOutcome::MalformedBody,
        status == 408 || status == 504 ==> o == AttemptOutcome::TimedOut,
        status == 429 ==> o == AttemptOutcome::RateLimited,
        400 <= status < 500 && status != 408 && status != 429 ==> o == AttemptOutcome::Rejected,
        !(200 <= status < 300) && !(400 <= status < 500) && status != 504 ==> o
            == AttemptOutcome::Failed,
{
    if 200 <= status && status < 300 {
        if body_parsed {
            AttemptOutcome::Delivered
        } else {
            AttemptOutcome::MalformedBody
        }
    } else if status == 408 || status == 504 {
        AttemptOutcome::TimedOut
    } else if status == 429 {
        AttemptOutcome::RateLimited
    } else if 400 <= status && status < 500 {
        AttemptOutcome::Rejected
    } else {
        AttemptOutcome::Failed
    }
}

/// The wait before retry attempt `k`, doubling from a second: attempt 1
/// waits 2000 ms, attempt 2 waits 4000 ms.
pub open spec fn backoff_spec(k: nat) -> nat
    decreases k,
{
    if k == 0 {
        1000
    } else {
        2 * backoff_spec((k - 1) as nat)
    }
}

/// The doubling backoff, for the attempts the plan allows.
pub fn backoff_delay_ms(k: u32) -> (d: u64)
    requires
        k <= MAX_FETCH_ATTEMPTS,
    ensures
        d == backoff_spec(k as nat),
{
    proof {
        reveal_with_fuel(backoff_spec, 5);
    }
    if k == 0 {
        1000
    } else if k == 1 {
        2000
    } else if k == 2 {
        4000
    } else {
        8000
    }
}

/// The plan after attempt `attempt` (counted from zero) ends as
/// `outcome`: a delivered body is used; a refused request is hopeless
/// and given up at once; any other outcome is retried after the
/// doubling backoff — with the extra pause when the catalog rate-limits
/// — until the attempts are spent.
pub fn plan_next(attempt: u32, outcome: AttemptOutcome) -> (s: FetchStep)
    requires
        attempt < MAX_FETCH_ATTEMPTS,
    ensures
        outcome == AttemptOutcome::Delivered ==> s == FetchStep::Accept,
        outcome == AttemptOutcome::Rejected ==> s == FetchStep::GiveUp,
        outcome != AttemptOutcome::Delivered && outcome != AttemptOutcome::Rejected ==> s == if attempt
            + 1 < MAX_FETCH_ATTEMPTS {
            FetchStep::Retry {
                delay_ms: (backoff_spec((attempt + 1) as nat) + if outcome
                    == AttemptOutcome::RateLimited {
                    RATE_LIMIT_PAUSE_MS as nat
                } else {
                    0
                }) as u64,
            }
        } else {
            FetchStep::GiveUp
        },
{
    match outcome {
        AttemptOutcome::Delivered => FetchStep::Accept,
        AttemptOutcome::Rejected => FetchStep::GiveUp,
        _ => {
            if attempt + 1 < MAX_FETCH_ATTEMPTS {
                let base = backoff_delay_ms(attempt + 1);
                let extra: u64 = match outcome {
                    AttemptOutcome::RateLimited => RATE_LIMIT_PAUSE_MS,
                    _ => 0,
                };
                proof {
                    reveal_with_fuel(backoff_spec, 5);
                }
                FetchStep::Retry { delay_ms: base + extra }
            } else {
                FetchStep::GiveUp
            }
        },
    }
}

} // verus!
