//! SKU generation.
//!
//! A SKU is `"{prefix}-{timestamp}-{6 random alphanumeric chars}"` when a
//! prefix is given, else `"{timestamp}-{6 random alphanumeric chars}"`, with
//! the timestamp rendered as `YYYYMMDDHHMMSS`. SKUs are collision-resistant
//! in practice but not guaranteed unique: stores treat the item name, not
//! the SKU, as the authoritative dedup key.

use vstd::prelude::*;
use vstd::string::StringExecFns;

verus! {

/// Relies on `chrono::Utc::now` and `DateTime::format` with
/// `%Y%m%d%H%M%S`: the rendering is the zero-padded 4-or-more-digit year
/// followed by month, day, hour, minute and second, two digits each — at
/// least 14 characters. The value depends on the clock; nothing else is
/// assumed of it.
#[verifier::external_body]
fn timestamp_string() -> (r: String)
    ensures
        r@.len() >= 14,
{
    chrono::Utc::now().format("%Y%m%d%H%M%S").to_string()
}

/// Relies on `rand::distributions::Alphanumeric` sampled through
/// `rand::Rng::sample_iter`: taking six samples yields exactly six
/// characters, each drawn from `0-9`, `a-z`, `A-Z`. Which characters come
/// back is chance; nothing else is assumed of them.
#[verifier::external_body]
fn random_alnum6() -> (r: String)
    ensures
        r@.len() == 6,
        forall|i: int|
            0 <= i < r@.len() ==> ('0' <= #[trigger] r@[i] <= '9' || 'a' <= r@[i] <= 'z' || 'A'
                <= r@[i] <= 'Z'),
{
    rand::Rng::sample_iter(rand::thread_rng(), &rand::distributions::Alphanumeric)
        .take(6)
        .map(char::from)
        .collect()
}

/// Generate a fresh SKU, prefixed with `prefix` when one is given. The
/// last seven characters are always a separator followed by the six random
/// characters; with a prefix, the result starts with the prefix and a
/// separator.
pub fn generate_sku(prefix: Option<&str>) -> (r: String)
    ensures
        r@.len() >= 21,
        r@[r@.len() - 7] == '-',
        prefix matches Some(p) ==> {
            &&& r@.len() >= p@.len() + 22
            &&& r@.subrange(0, p@.len() as int) == p@
            &&& r@[p@.len() as int] == '-'
        },
{
    let ts = timestamp_string();
    let rnd = random_alnum6();
    match prefix {
        Some(p) => {
            let mut s = p.to_string();
            s.append("-");
            s.append(ts.as_str());
            s.append("-");
            let ghost stem = s@;
            s.append(rnd.as_str());
            proof {
                reveal_strlit("-");
                assert(s@.subrange(0, p@.len() as int) =~= p@);
                assert(stem[stem.len() - 1] == '-');
                assert(s@[s@.len() - 7] == stem[stem.len() - 1]);
            }
            s
        },
        None => {
            let mut s = ts;
            s.append("-");
            let ghost stem = s@;
            s.append(rnd.as_str());
            proof {
                reveal_strlit("-");
                assert(stem[stem.len() - 1] == '-');
                assert(s@[s@.len() - 7] == stem[stem.len() - 1]);
            }
            s
        },
    }
}

} // verus!
