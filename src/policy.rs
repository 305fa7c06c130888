use vstd::prelude::*;
use vstd::set_lib::{lemma_int_range, set_int_range};

use crate::chance::{draw, Chance, DRAW_SCALE};
use crate::classify::{message_is_meme, message_is_meme_spec, InboundMessage};

verus! {

/// The fixed reply sent in cringe channels.
pub const CRINGE_TEXT: &'static str = "Honestly, this is cringe.";

/// What the policy decided for one message, before any asset is picked.
#[derive(Clone, Copy, Debug, PartialEq, Eq, Structural)]
pub enum Decision {
    /// No reply.
    Skip,
    /// Reply with a media file from the pool.
    Bully,
    /// Reply with the fixed cringe text.
    Cringe,
}

/// The body of a reply.
#[derive(Debug)]
pub enum Reply {
    /// Nothing is sent.
    Silent,
    /// A media file, named by its asset reference.
    Media(String),
    /// A text message.
    Text(String),
}

/// The outcome for one message, with the message it answers.
#[derive(Debug)]
pub struct ResponseIntent {
    pub channel_id: u64,
    /// The message this reply quotes.
    pub reply_to: u64,
    pub reply: Reply,
}

/// The per-message policy, with the configuration it reads.
pub struct Handler {
    pub bully_chance: Chance,
    pub cringe_channels: Vec<u64>,
    pub cringe_chance: Chance,
    /// The asset pool: references of the media files a bully reply may carry.
    pub assets: Vec<String>,
}

/// The decision for message `m` under draw `draw`: bots and non-memes get no
/// reply; in a cringe channel a draw that hits the cringe chance skips and any
/// other gets the cringe text; elsewhere a draw that hits the bully chance gets
/// media and any other is skipped.
pub open spec fn decide_spec(h: &Handler, m: &InboundMessage, draw: int) -> Decision {
    if m.author_is_bot || !message_is_meme_spec(m) {
        Decision::Skip
    } else if h.cringe_channels@.contains(m.channel_id) {
        if h.cringe_chance.hits(draw) {
            Decision::Skip
        } else {
            Decision::Cringe
        }
    } else if h.bully_chance.hits(draw) {
        Decision::Bully
    } else {
        Decision::Skip
    }
}

/// `chosen` is a possible outcome of picking from `pool`: nothing exactly when
/// the pool is empty, otherwise one of its entries.
pub open spec fn valid_pick(pool: Seq<String>, chosen: Option<Seq<char>>) -> bool {
    match chosen {
        None => pool.len() == 0,
        Some(a) => exists|i: int| 0 <= i < pool.len() && pool[i]@ == a,
    }
}

/// `r` is the reply for decision `d`, given the asset `chosen` for a bully reply.
pub open spec fn reply_for(r: Reply, d: Decision, chosen: Option<Seq<char>>) -> bool {
    match d {
        Decision::Skip => r is Silent,
        Decision::Cringe => r matches Reply::Text(t) && t@ == CRINGE_TEXT@,
        Decision::Bully => match chosen {
            None => r is Silent,
            Some(a) => r matches Reply::Media(x) && x@ == a,
        },
    }
}

/// `r` answers message `m` with decision `d` and asset `chosen`.
pub open spec fn intent_for_spec(
    r: ResponseIntent,
    m: &InboundMessage,
    d: Decision,
    chosen: Option<Seq<char>>,
) -> bool {
    r.channel_id == m.channel_id && r.reply_to == m.id && reply_for(r.reply, d, chosen)
}

pub open spec fn option_view(o: Option<String>) -> Option<Seq<char>> {
    match o {
        Some(s) => Some(s@),
        None => None,
    }
}

/// Relies on rand::seq::SliceRandom::choose on rand::thread_rng: `None` for an
/// empty slice, otherwise a reference to one of its elements.
#[verifier::external_body]
fn choose_one(pool: &[String]) -> (r: Option<&String>)
    ensures
        r is None <==> pool@.len() == 0,
        r matches Some(a) ==> pool@.contains(*a),
{
    rand::seq::SliceRandom::choose(pool, &mut rand::thread_rng())
}

impl Handler {
    pub fn new(
        bully_chance: Chance,
        assets: Vec<String>,
        cringe_channels: Vec<u64>,
        cringe_chance: Chance,
    ) -> (r: Handler)
        ensures
            r.bully_chance == bully_chance,
            r.assets == assets,
            r.cringe_channels == cringe_channels,
            r.cringe_chance == cringe_chance,
    {
        Handler { bully_chance, assets, cringe_channels, cringe_chance }
    }

    /// Whether `channel` is one of the cringe channels.
    pub fn is_cringe_channel(&self, channel: u64) -> (r: bool)
        ensures
            r == self.cringe_channels@.contains(channel),
    {
        let mut i: usize = 0;
        while i < self.cringe_channels.len()
            invariant
                i <= self.cringe_channels@.len(),
                forall|j: int| 0 <= j < i ==> self.cringe_channels@[j] != channel,
            decreases self.cringe_channels@.len() - i,
        {
            if self.cringe_channels[i] == channel {
                return true;
            }
            i = i + 1;
        }
        false
    }

    /// The decision for `msg` under the given draw.
    pub fn decide(&self, msg: &InboundMessage, draw: u64) -> (r: Decision)
        ensures
            r == decide_spec(self, msg, draw as int),
    {
        if msg.author_is_bot || !message_is_meme(msg) {
            return Decision::Skip;
        }
        if self.is_cringe_channel(msg.channel_id) {
            if self.cringe_chance.is_hit(draw) {
                Decision::Skip
            } else {
                Decision::Cringe
            }
        } else if self.bully_chance.is_hit(draw) {
            Decision::Bully
        } else {
            Decision::Skip
        }
    }

    /// Picks one asset of the pool at random; `None` when the pool is empty.
    pub fn pick_asset(&self) -> (r: Option<String>)
        ensures
            valid_pick(self.assets@, option_view(r)),
    {
        match choose_one(self.assets.as_slice()) {
            Some(a) => Some(a.clone()),
            None => None,
        }
    }

    /// The reply to `msg` for decision `decision`, where `chosen` is the asset
    /// picked for a bully reply.
    pub fn intent_for(msg: &InboundMessage, decision: Decision, chosen: Option<String>) -> (r:
        ResponseIntent)
        ensures
            intent_for_spec(r, msg, decision, option_view(chosen)),
    {
        let reply = match decision {
            Decision::Skip => Reply::Silent,
            Decision::Cringe => Reply::Text(CRINGE_TEXT.to_owned()),
            Decision::Bully => match chosen {
                Some(a) => Reply::Media(a),
                None => Reply::Silent,
            },
        };
        ResponseIntent { channel_id: msg.channel_id, reply_to: msg.id, reply }
    }

    /// Handles one inbound message: draws once, decides, and picks an asset for a
    /// bully reply. The result is the reply for some draw in `0..DRAW_SCALE` and
    /// some valid pick; bots and non-memes always get `Silent`, and an empty
    /// pool never gives media.
    pub fn respond(&self, msg: &InboundMessage) -> (r: ResponseIntent)
        ensures
            exists|d: int, chosen: Option<Seq<char>>|
                0 <= d < DRAW_SCALE && valid_pick(self.assets@, chosen) && intent_for_spec(
                    r,
                    msg,
                    decide_spec(self, msg, d),
                    chosen,
                ),
            msg.author_is_bot ==> r.reply is Silent,
            !message_is_meme_spec(msg) ==> r.reply is Silent,
            self.assets@.len() == 0 ==> !(r.reply is Media),
            r.reply is Media ==> !self.cringe_channels@.contains(msg.channel_id),
            r.reply is Text ==> self.cringe_channels@.contains(msg.channel_id),
    {
        if msg.author_is_bot || !message_is_meme(msg) {
            let r = Self::intent_for(msg, Decision::Skip, None);
            let ghost pick: Option<Seq<char>> = if self.assets@.len() == 0 {
                None
            } else {
                Some(self.assets@[0]@)
            };
            assert(valid_pick(self.assets@, pick));
            assert(intent_for_spec(r, msg, decide_spec(self, msg, 0), pick));
            return r;
        }
        let d = draw();
        let decision = self.decide(msg, d);
        let chosen = if decision == Decision::Bully {
            self.pick_asset()
        } else {
            None
        };
        let ghost pick = option_view(chosen);
        proof {
            if decision != Decision::Bully {
                if self.assets@.len() != 0 {
                    pick = Some(self.assets@[0]@);
                }
            }
            assert(valid_pick(self.assets@, pick));
        }
        let r = Self::intent_for(msg, decision, chosen);
        assert(intent_for_spec(r, msg, decide_spec(self, msg, d as int), pick));
        r
    }
}

/// Messages written by bots are never answered, whatever their content, channel,
/// configuration or draw.
pub proof fn lemma_bots_never_answered(h: &Handler, m: &InboundMessage, draw: int)
    requires
        m.author_is_bot,
    ensures
        decide_spec(h, m, draw) == Decision::Skip,
        forall|r: ResponseIntent, chosen: Option<Seq<char>>|
            intent_for_spec(r, m, decide_spec(h, m, draw), chosen) ==> r.reply is Silent,
{
}

/// The draws in `0..DRAW_SCALE` on which `m` gets decision `d`.
pub open spec fn draws_deciding(h: &Handler, m: &InboundMessage, d: Decision) -> Set<int> {
    Set::new(|x: int| 0 <= x < DRAW_SCALE && decide_spec(h, m, x) == d)
}

/// For a meme from a person outside the cringe channels, exactly `ticks` of the
/// `DRAW_SCALE` equally likely draws give media: the share of bully replies is
/// the bully chance.
pub proof fn lemma_bully_share(h: &Handler, m: &InboundMessage)
    requires
        h.bully_chance.wf(),
        !m.author_is_bot,
        message_is_meme_spec(m),
        !h.cringe_channels@.contains(m.channel_id),
    ensures
        draws_deciding(h, m, Decision::Bully).finite(),
        draws_deciding(h, m, Decision::Bully).len() == h.bully_chance.ticks,
{
    assert(draws_deciding(h, m, Decision::Bully) =~= set_int_range(0, h.bully_chance.ticks as int));
    lemma_int_range(0, h.bully_chance.ticks as int);
}

/// For a meme from a person in a cringe channel, exactly `DRAW_SCALE - ticks`
/// of the equally likely draws give the cringe text: the share of cringe replies
/// is one minus the cringe chance.
pub proof fn lemma_cringe_share(h: &Handler, m: &InboundMessage)
    requires
        h.cringe_chance.wf(),
        !m.author_is_bot,
        message_is_meme_spec(m),
        h.cringe_channels@.contains(m.channel_id),
    ensures
        draws_deciding(h, m, Decision::Cringe).finite(),
        draws_deciding(h, m, Decision::Cringe).len() == DRAW_SCALE - h.cringe_chance.ticks,
{
    assert(draws_deciding(h, m, Decision::Cringe) =~= set_int_range(
        h.cringe_chance.ticks as int,
        DRAW_SCALE as int,
    ));
    lemma_int_range(h.cringe_chance.ticks as int, DRAW_SCALE as int);
}

/// With an empty asset pool no outcome carries media: the only valid pick is
/// nothing, and a bully decision then sends nothing.
pub proof fn lemma_empty_pool_never_media(
    h: &Handler,
    m: &InboundMessage,
    draw: int,
    chosen: Option<Seq<char>>,
    r: ResponseIntent,
)
    requires
        h.assets@.len() == 0,
        valid_pick(h.assets@, chosen),
        intent_for_spec(r, m, decide_spec(h, m, draw), chosen),
    ensures
        !(r.reply is Media),
{
}

} // verus!
