use vstd::prelude::*;
use vstd::string::StringExecFns;

use super::{endpoint, endpoint_url, is_client_error_status, ApiError};

verus! {

/// A guild the user is a member of.
#[derive(Debug)]
pub struct Guild {
    pub id: String,
    pub name: String,
}

/// A channel of a guild, as the channel list returns it.
#[derive(Debug)]
pub struct VcChannel {
    pub id: String,
    pub name: String,
    pub user_limit: Option<usize>,
    /// The platform's kind tag (`type` on the wire).
    pub channel_type: u8,
}

/// Voice channels have id 2
pub const VOICE_CHANNEL_TYPE: u8 = 2;

pub open spec fn is_voice(c: VcChannel) -> bool {
    c.channel_type == VOICE_CHANNEL_TYPE
}

/// The voice channels of `s`, in their order.
pub open spec fn voice_channels(s: Seq<VcChannel>) -> Seq<VcChannel> {
    s.filter(|c: VcChannel| is_voice(c))
}

pub const GUILDS_PATH: &'static str = "/users/@me/guilds";

pub const GUILD_PATH_PREFIX: &'static str = "/guilds/";

pub const CHANNELS_PATH_SUFFIX: &'static str = "/channels";

/// The URL of the path that lists a guild's channels.
pub open spec fn channels_url_of(guild_id: Seq<char>) -> Seq<char> {
    endpoint_url(GUILD_PATH_PREFIX@ + guild_id + CHANNELS_PATH_SUFFIX@)
}

/// The URL that lists the user's guilds.
pub fn guilds_url() -> (r: String)
    ensures
        r@ == endpoint_url(GUILDS_PATH@),
{
    endpoint(GUILDS_PATH)
}

/// The URL that lists the channels of `guild`.
pub fn channels_url(guild: &Guild) -> (r: String)
    ensures
        r@ == channels_url_of(guild.id@),
{
    let path = String::from_str(GUILD_PATH_PREFIX).concat(guild.id.as_str()).concat(
        CHANNELS_PATH_SUFFIX,
    );
    endpoint(path.as_str())
}

/// What the status of a listing response decides: a client error means the
/// token was refused, and the body is then not decoded; any other status goes
/// on to decoding.
pub fn check_listing_status(status: u16) -> (r: Result<(), ApiError>)
    ensures
        r is Err <==> is_client_error_status(status),
        r is Err ==> r matches Err(ApiError::Unauthorized),
{
    if 400 <= status && status <= 499 {
        Err(ApiError::Unauthorized)
    } else {
        Ok(())
    }
}

/// The guild list from the decoded body, in the order received.
pub fn guilds_from(decoded: Result<Vec<Guild>, serde_json::Error>) -> (r: Result<Vec<Guild>, ApiError>)
    ensures
        match decoded {
            Ok(g) => r == Ok::<Vec<Guild>, ApiError>(g),
            Err(e) => r == Err::<Vec<Guild>, ApiError>(ApiError::Serde(e)),
        },
{
    match decoded {
        Ok(g) => Ok(g),
        Err(e) => Err(ApiError::Serde(e)),
    }
}

/// Keeps the voice channels of `channels`, in their order.
pub fn filter_vc_channels(channels: Vec<VcChannel>) -> (r: Vec<VcChannel>)
    ensures
        r@ == voice_channels(channels@),
{
    let ghost all = channels@;
    let mut r: Vec<VcChannel> = Vec::new();
    for c in it: channels.into_iter()
        invariant
            it.seq() == all,
            r@ == voice_channels(all.subrange(0, it.index() as int)),
    {
        let ghost k = it.index() as int;
        proof {
            assert(all.subrange(0, k + 1).drop_last() =~= all.subrange(0, k));
            reveal(Seq::filter);
        }
        if c.channel_type == VOICE_CHANNEL_TYPE {
            r.push(c);
        }
    }
    proof {
        assert(all.subrange(0, all.len() as int) =~= all);
    }
    r
}

/// The voice channels of the decoded channel list, in their order.
pub fn vc_channels_from(decoded: Result<Vec<VcChannel>, serde_json::Error>) -> (r: Result<
    Vec<VcChannel>,
    ApiError,
>)
    ensures
        match decoded {
            Ok(cs) => (r matches Ok(v) && v@ == voice_channels(cs@)),
            Err(e) => r == Err::<Vec<VcChannel>, ApiError>(ApiError::Serde(e)),
        },
{
    match decoded {
        Ok(cs) => Ok(filter_vc_channels(cs)),
        Err(e) => Err(ApiError::Serde(e)),
    }
}

/// Filtering twice keeps what filtering once kept.
pub proof fn lemma_voice_filter_idempotent(s: Seq<VcChannel>)
    ensures
        voice_channels(voice_channels(s)) == voice_channels(s),
{
    lemma_all_voice_unchanged(voice_channels(s));
}

/// A sequence of voice channels only is kept whole.
pub proof fn lemma_all_voice_unchanged(s: Seq<VcChannel>)
    requires
        forall|i: int| 0 <= i < s.len() ==> is_voice(#[trigger] s[i]),
    ensures
        voice_channels(s) == s,
    decreases s.len(),
{
    broadcast use vstd::seq_lib::group_filter_ensures;
    reveal(Seq::filter);
    if s.len() > 0 {
        lemma_all_voice_unchanged(s.drop_last());
        assert(s.drop_last().push(s.last()) =~= s);
    }
}

/// A sequence without voice channels filters to empty.
pub proof fn lemma_no_voice_empty(s: Seq<VcChannel>)
    requires
        forall|i: int| 0 <= i < s.len() ==> !is_voice(#[trigger] s[i]),
    ensures
        voice_channels(s).len() == 0,
    decreases s.len(),
{
    reveal(Seq::filter);
    if s.len() > 0 {
        lemma_no_voice_empty(s.drop_last());
    }
}

} // verus!
