use vstd::prelude::*;
use vstd::utf8::encode_utf8;

use crate::chance::{Chance, DRAW_SCALE};
use crate::policy::Handler;

verus! {

/// Why the configuration could not be formed. Each of these stops the program
/// before any message is handled.
#[derive(Clone, Copy, Debug, PartialEq, Eq, Structural)]
pub enum ConfigError {
    /// The asset directory could not be listed.
    AssetsUnreadable,
    MissingToken,
    EmptyToken,
    MissingBullyChance,
    /// The bully chance is not a number.
    BadBullyChance,
    /// The bully chance is not within `[0, 1]`.
    BullyChanceOutOfRange,
    /// A token of the cringe channel list is not an unsigned 64-bit integer.
    BadCringeChannel,
    /// The cringe chance is not a number.
    BadCringeChance,
    /// The cringe chance is not within `[0, 1]`.
    CringeChanceOutOfRange,
}

pub open spec fn is_digit(b: u8) -> bool {
    48 <= b <= 57
}

pub open spec fn all_digits(s: Seq<u8>) -> bool {
    forall|i: int| 0 <= i < s.len() ==> is_digit(s[i])
}

/// The value of a run of decimal digits.
pub open spec fn digits_value(s: Seq<u8>) -> nat
    decreases s.len(),
{
    if s.len() == 0 {
        0
    } else {
        digits_value(s.drop_last()) * 10 + (s.last() - 48) as nat
    }
}

/// The digits of a number, after an optional leading `+`.
pub open spec fn unsigned_digits(s: Seq<u8>) -> Seq<u8> {
    if s.len() > 0 && s[0] == 43 {
        s.drop_first()
    } else {
        s
    }
}

/// A decimal unsigned 64-bit integer: an optional `+`, then at least one digit,
/// and nothing else, with a value that fits.
pub open spec fn parse_u64_spec(s: Seq<u8>) -> Option<u64> {
    let d = unsigned_digits(s);
    if d.len() > 0 && all_digits(d) && digits_value(d) <= u64::MAX {
        Some(digits_value(d) as u64)
    } else {
        None
    }
}

/// The comma-separated fields of `s`; a string without commas is one field.
pub open spec fn split_commas(s: Seq<u8>) -> Seq<Seq<u8>>
    decreases s.len(),
{
    if s.len() == 0 {
        seq![Seq::empty()]
    } else {
        let p = split_commas(s.drop_last());
        if s.last() == 44 {
            p.push(Seq::empty())
        } else {
            p.update(p.len() - 1, p.last().push(s.last()))
        }
    }
}

/// Every field of the list is a channel identifier.
pub open spec fn all_fields_parse(s: Seq<u8>) -> bool {
    forall|j: int| 0 <= j < split_commas(s).len() ==> (#[trigger] parse_u64_spec(split_commas(s)[j])) is Some
}

/// The channel identifiers of a list whose fields all parse.
pub open spec fn channel_list(s: Seq<u8>) -> Seq<u64> {
    split_commas(s).map_values(|f: Seq<u8>| parse_u64_spec(f)->Some_0)
}

/// What the cringe channel setting gives, over its bytes: no setting, or an
/// empty one, is the empty list; otherwise every field must parse.
pub open spec fn cringe_channels_spec(raw: Option<Seq<u8>>) -> Option<Seq<u64>> {
    match raw {
        None => Some(Seq::empty()),
        Some(s) => if s.len() == 0 {
            Some(Seq::empty())
        } else if all_fields_parse(s) {
            Some(channel_list(s))
        } else {
            None
        },
    }
}

/// The bytes of an optional setting.
pub open spec fn setting_bytes(raw: Option<&str>) -> Option<Seq<u8>> {
    match raw {
        None => None,
        Some(s) => Some(encode_utf8(s@)),
    }
}

pub proof fn lemma_split_nonempty(s: Seq<u8>)
    ensures
        split_commas(s).len() >= 1,
    decreases s.len(),
{
    if s.len() > 0 {
        lemma_split_nonempty(s.drop_last());
    }
}

/// Splitting a longer string keeps the finished fields of a prefix.
pub proof fn lemma_split_extends(s: Seq<u8>, k: int)
    requires
        0 <= k <= s.len(),
    ensures
        split_commas(s).len() >= split_commas(s.subrange(0, k)).len(),
        forall|j: int|
            0 <= j < split_commas(s.subrange(0, k)).len() - 1 ==> split_commas(s)[j]
                == split_commas(s.subrange(0, k))[j],
    decreases s.len(),
{
    if k == s.len() {
        assert(s.subrange(0, k) =~= s);
    } else {
        lemma_split_extends(s.drop_last(), k);
        assert(s.drop_last().subrange(0, k) =~= s.subrange(0, k));
        lemma_split_nonempty(s.drop_last());
    }
}

proof fn lemma_digits_monotone(s: Seq<u8>, k: int)
    requires
        0 <= k <= s.len(),
    ensures
        digits_value(s.subrange(0, k)) <= digits_value(s),
    decreases s.len(),
{
    if k < s.len() {
        lemma_digits_monotone(s.drop_last(), k);
        assert(s.drop_last().subrange(0, k) =~= s.subrange(0, k));
    } else {
        assert(s.subrange(0, k) =~= s);
    }
}

/// Parses `b[start..end]` as a decimal unsigned 64-bit integer.
pub fn parse_u64_field(b: &[u8], start: usize, end: usize) -> (r: Option<u64>)
    requires
        start <= end <= b@.len(),
    ensures
        r == parse_u64_spec(b@.subrange(start as int, end as int)),
{
    let ghost s = b@.subrange(start as int, end as int);
    let mut from: usize = start;
    if start < end && b[start] == 43 {
        from = start + 1;
    }
    let ghost d = b@.subrange(from as int, end as int);
    proof {
        if start < end && b@[start as int] == 43 {
            assert(s[0] == 43);
            assert(d =~= s.drop_first());
        } else {
            assert(d =~= s);
        }
        assert(d == unsigned_digits(s));
    }
    if from == end {
        assert(d.len() == 0);
        return None;
    }
    let mut v: u64 = 0;
    let mut j: usize = from;
    while j < end
        invariant
            from <= j <= end <= b@.len(),
            d == b@.subrange(from as int, end as int),
            s == b@.subrange(start as int, end as int),
            d == unsigned_digits(s),
            all_digits(b@.subrange(from as int, j as int)),
            v as nat == digits_value(b@.subrange(from as int, j as int)),
        decreases end - j,
    {
        let c = b[j];
        let ghost pre = b@.subrange(from as int, j as int);
        let ghost next = b@.subrange(from as int, j + 1);
        assert(next.drop_last() =~= pre);
        assert(d[j - from] == c);
        if c < 48 || c > 57 {
            assert(!all_digits(d));
            return None;
        }
        let dig: u64 = (c - 48) as u64;
        assert(next.last() == c);
        if v > (u64::MAX - dig) / 10 {
            proof {
                assert(digits_value(next) == v * 10 + dig);
                assert(v * 10 + dig > u64::MAX) by (nonlinear_arith)
                    requires
                        v > (u64::MAX - dig) / 10,
                        dig <= 9,
                ;
                if all_digits(d) {
                    lemma_digits_monotone(d, j + 1 - from);
                    assert(d.subrange(0, j + 1 - from) =~= next);
                }
                assert(parse_u64_spec(s) is None);
            }
            return None;
        }
        proof {
            assert(v * 10 + dig <= u64::MAX) by (nonlinear_arith)
                requires
                    v <= (u64::MAX - dig) / 10,
                    dig <= 9,
            ;
        }
        v = v * 10 + dig;
        j = j + 1;
        assert(all_digits(next));
    }
    Some(v)
}

/// The cringe channels of the setting `raw` (absent when `None`): a
/// comma-separated list of unsigned 64-bit integers. An absent or empty setting
/// is the empty list; any field that does not parse is an error.
pub fn get_cringe_channels(raw: Option<&str>) -> (r: Result<Vec<u64>, ConfigError>)
    ensures
        match cringe_channels_spec(setting_bytes(raw)) {
            Some(v) => r matches Ok(c) && c@ == v,
            None => r matches Err(e) && e == ConfigError::BadCringeChannel,
        },
{
    let text = match raw {
        None => {
            return Ok(Vec::new());
        },
        Some(t) => t,
    };
    let b: &[u8] = text.as_bytes();
    let n: usize = b.len();
    if n == 0 {
        return Ok(Vec::new());
    }
    let mut channels: Vec<u64> = Vec::new();
    let ghost mut done: Seq<Seq<u8>> = Seq::empty();
    let mut start: usize = 0;
    let mut i: usize = 0;
    assert(b@.subrange(0, 0) =~= Seq::<u8>::empty());
    while i < n
        invariant
            n == b@.len(),
            n > 0,
            raw == Some(text),
            b@ == encode_utf8(text@),
            start <= i <= n,
            split_commas(b@.subrange(0, i as int)) == done.push(b@.subrange(start as int, i as int)),
            channels@.len() == done.len(),
            forall|j: int| 0 <= j < done.len() ==> parse_u64_spec(#[trigger] done[j]) == Some(channels@[j]),
        decreases n - i,
    {
        let ghost pre = b@.subrange(0, i as int);
        assert(b@.subrange(0, i + 1).drop_last() =~= pre);
        if b[i] == 44 {
            match parse_u64_field(b, start, i) {
                Some(c) => {
                    channels.push(c);
                },
                None => {
                    proof {
                        let q = split_commas(b@.subrange(0, i + 1));
                        assert(q == done.push(b@.subrange(start as int, i as int)).push(Seq::empty()));
                        assert(q[done.len() as int] == b@.subrange(start as int, i as int));
                        lemma_split_extends(b@, i + 1);
                        assert(split_commas(b@)[done.len() as int] == b@.subrange(start as int, i as int));
                        assert(parse_u64_spec(split_commas(b@)[done.len() as int]) is None);
                        assert(!all_fields_parse(b@));
                    }
                    return Err(ConfigError::BadCringeChannel);
                },
            }
            proof {
                done = done.push(b@.subrange(start as int, i as int));
            }
            start = i + 1;
            assert(b@.subrange(start as int, start as int) =~= Seq::<u8>::empty());
        } else {
            assert(b@.subrange(start as int, i + 1) =~= b@.subrange(start as int, i as int).push(b[i as int]));
        }
        i = i + 1;
    }
    assert(b@.subrange(0, n as int) =~= b@);
    match parse_u64_field(b, start, n) {
        Some(c) => {
            channels.push(c);
            proof {
                done = done.push(b@.subrange(start as int, n as int));
                assert(split_commas(b@) == done);
                assert(all_fields_parse(b@));
                assert(channels@ =~= channel_list(b@));
            }
            Ok(channels)
        },
        None => {
            proof {
                assert(split_commas(b@)[done.len() as int] == b@.subrange(start as int, n as int));
            }
            Err(ConfigError::BadCringeChannel)
        },
    }
}

/// The process-wide configuration, formed once before any message is handled.
pub struct Config {
    /// The credential of the bot account.
    pub token: String,
    pub bully_chance: Chance,
    /// The asset pool, in directory order.
    pub assets: Vec<String>,
    pub cringe_channels: Vec<u64>,
    pub cringe_chance: Chance,
}

/// The first problem with the settings, checked in this order: the token, the
/// bully chance, the cringe channels, the cringe chance. An absent cringe chance
/// is no problem (it defaults to never).
pub open spec fn config_error(
    token: Option<Seq<char>>,
    bully_ticks: Option<u64>,
    cringe_channels: Option<Seq<u8>>,
    cringe_ticks: Option<u64>,
) -> Option<ConfigError> {
    if token is None {
        Some(ConfigError::MissingToken)
    } else if token->Some_0.len() == 0 {
        Some(ConfigError::EmptyToken)
    } else if bully_ticks is None {
        Some(ConfigError::MissingBullyChance)
    } else if bully_ticks->Some_0 > DRAW_SCALE {
        Some(ConfigError::BullyChanceOutOfRange)
    } else if cringe_channels_spec(cringe_channels) is None {
        Some(ConfigError::BadCringeChannel)
    } else if cringe_ticks matches Some(t) && t > DRAW_SCALE {
        Some(ConfigError::CringeChanceOutOfRange)
    } else {
        None
    }
}

pub open spec fn string_view(o: Option<String>) -> Option<Seq<char>> {
    match o {
        Some(s) => Some(s@),
        None => None,
    }
}

impl Config {
    /// Forms the configuration from the settings as read: the token, the bully
    /// chance and the cringe chance in draws out of `DRAW_SCALE`, and the raw
    /// cringe channel list. Any problem is reported, never replaced by a default.
    pub fn assemble(
        assets: Vec<String>,
        token: Option<String>,
        bully_ticks: Option<u64>,
        cringe_channels: Option<&str>,
        cringe_ticks: Option<u64>,
    ) -> (r: Result<Config, ConfigError>)
        ensures
            match config_error(
                string_view(token),
                bully_ticks,
                setting_bytes(cringe_channels),
                cringe_ticks,
            ) {
                Some(e) => r matches Err(x) && x == e,
                None => r matches Ok(c) && c.token@ == token->Some_0@ && c.bully_chance.ticks
                    == bully_ticks->Some_0 && c.assets == assets && c.cringe_channels@
                    == cringe_channels_spec(setting_bytes(cringe_channels))->Some_0
                    && c.cringe_chance.ticks == match cringe_ticks {
                    Some(t) => t,
                    None => 0,
                } && c.bully_chance.wf() && c.cringe_chance.wf(),
            },
    {
        let token = match token {
            None => {
                return Err(ConfigError::MissingToken);
            },
            Some(t) => t,
        };
        if token.as_str().is_empty() {
            return Err(ConfigError::EmptyToken);
        }
        let bully_chance = match bully_ticks {
            None => {
                return Err(ConfigError::MissingBullyChance);
            },
            Some(t) => match Chance::from_ticks(t) {
                None => {
                    return Err(ConfigError::BullyChanceOutOfRange);
                },
                Some(c) => c,
            },
        };
        let channels = match get_cringe_channels(cringe_channels) {
            Err(e) => {
                return Err(e);
            },
            Ok(c) => c,
        };
        let cringe_chance = match cringe_ticks {
            None => Chance::never(),
            Some(t) => match Chance::from_ticks(t) {
                None => {
                    return Err(ConfigError::CringeChanceOutOfRange);
                },
                Some(c) => c,
            },
        };
        Ok(Config { token, bully_chance, assets, cringe_channels: channels, cringe_chance })
    }

    /// Splits the configuration into the credential and the message handler.
    pub fn into_handler(self) -> (r: (String, Handler))
        ensures
            r.0 == self.token,
            r.1.bully_chance == self.bully_chance,
            r.1.assets == self.assets,
            r.1.cringe_channels == self.cringe_channels,
            r.1.cringe_chance == self.cringe_chance,
    {
        let Config { token, bully_chance, assets, cringe_channels, cringe_chance } = self;
        (token, Handler::new(bully_chance, assets, cringe_channels, cringe_chance))
    }
}

} // verus!
