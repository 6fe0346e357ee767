//! Setting up a match: its players, its map and its log file.
use std::sync::Arc;
use vstd::prelude::*;

use crate::adapter::RemoteBotSpec;
use crate::config::GlobalConfig;
use crate::token::{all_alphanumeric, gen_alphanumeric};

verus! {

/// A bot as stored.
pub struct Bot {
    pub id: i32,
    pub owner_id: Option<i32>,
    pub name: String,
}

/// One uploaded version of a bot: a code bundle, a container image, or both.
pub struct BotVersion {
    pub id: i32,
    pub bot_id: Option<i32>,
    pub code_bundle_path: Option<String>,
    pub container_digest: Option<String>,
}

/// A map that matches are played on.
pub struct MatchMap {
    pub id: i32,
    pub name: String,
    pub file_path: String,
}

pub enum MatchPlayer {
    /// A stored bot version, run by the server.
    BotVersion { bot: Option<Bot>, version: BotVersion },
    /// A remote bot that connects over the network under a player key.
    BotSpec { spec: RemoteBotSpec },
}

#[derive(Debug, Clone, Copy, PartialEq, Eq, Structural)]
pub enum MatchState {
    Playing,
    Finished,
}

/// The record of a new match.
pub struct NewMatch {
    pub state: MatchState,
    pub log_path: String,
    pub is_public: bool,
    pub map_id: Option<i32>,
}

/// The decimal digits of `n`, most significant first.
pub open spec fn digits_of(n: nat) -> Seq<char>
    decreases n,
{
    let digit = seq!['0', '1', '2', '3', '4', '5', '6', '7', '8', '9'][(n % 10) as int];
    if n < 10 {
        seq![digit]
    } else {
        digits_of(n / 10).push(digit)
    }
}

/// `n` written in decimal, with a leading `-` when negative.
pub open spec fn decimal_of(n: int) -> Seq<char> {
    if n < 0 {
        seq!['-'] + digits_of((-n) as nat)
    } else {
        digits_of(n as nat)
    }
}

/// Relies on `i32::to_string` (its `Display`): the number in decimal, with
/// a leading `-` when negative.
#[verifier::external_body]
fn decimal(n: i32) -> (r: String)
    ensures
        r@ == decimal_of(n as int),
{
    n.to_string()
}

/// Where the replay of match `match_id` can be watched, under the web
/// server's root url.
pub fn match_url(root_url: &String, match_id: i32) -> (r: String)
    ensures
        r@ == root_url@ + "/matches/"@ + decimal_of(match_id as int),
{
    let mut url = root_url.clone();
    url.append("/matches/");
    let id = decimal(match_id);
    url.append(id.as_str());
    url
}

pub open spec fn default_map_name() -> Seq<char> {
    seq!['h', 'e', 'x']
}

/// The map a match request asks for: the one it names, or `hex` where it
/// names none.
pub fn map_name_or_default(requested: &String) -> (r: String)
    ensures
        r@ == (if requested@.len() == 0 {
            default_map_name()
        } else {
            requested@
        }),
{
    if requested.as_str().is_empty() {
        let name = String::from_str("hex");
        proof {
            reveal_strlit("hex");
            assert(name@ =~= default_map_name());
        }
        name
    } else {
        requested.clone()
    }
}

/// The players of a match that a remote bot asked for: the remote bot
/// first, then its chosen opponent's stored version.
pub fn remote_match_players(spec: RemoteBotSpec, opponent_bot: Bot, opponent_version: BotVersion) -> (r:
    Vec<MatchPlayer>)
    ensures
        r@ == seq![
            MatchPlayer::BotSpec { spec },
            MatchPlayer::BotVersion { bot: Some(opponent_bot), version: opponent_version },
        ],
{
    let mut players: Vec<MatchPlayer> = Vec::new();
    players.push(MatchPlayer::BotSpec { spec });
    players.push(MatchPlayer::BotVersion { bot: Some(opponent_bot), version: opponent_version });
    proof {
        assert(players@ =~= seq![
            MatchPlayer::BotSpec { spec },
            MatchPlayer::BotVersion { bot: Some(opponent_bot), version: opponent_version },
        ]);
    }
    players
}

/// How many random characters name a match log.
pub const LOG_NAME_LENGTH: usize = 16;

pub open spec fn log_suffix() -> Seq<char> {
    seq!['.', 'l', 'o', 'g']
}

/// `name` is a match log's file name: random letters and digits, then `.log`.
pub open spec fn is_log_file_name(name: Seq<char>) -> bool {
    &&& name.len() == LOG_NAME_LENGTH + 4
    &&& all_alphanumeric(name.subrange(0, LOG_NAME_LENGTH as int))
    &&& name.subrange(LOG_NAME_LENGTH as int, name.len() as int) == log_suffix()
}

/// The code bundle recorded for a player: a stored version's id, or none
/// for a remote bot.
pub open spec fn code_bundle_of(player: MatchPlayer) -> Option<i32> {
    match player {
        MatchPlayer::BotVersion { version, .. } => Some(version.id),
        MatchPlayer::BotSpec { .. } => None,
    }
}

pub struct RunMatch {
    log_file_name: String,
    players: Vec<MatchPlayer>,
    config: Arc<GlobalConfig>,
    is_public: bool,
    map: MatchMap,
}

impl RunMatch {
    pub closed spec fn spec_log_file_name(&self) -> Seq<char> {
        self.log_file_name@
    }

    pub closed spec fn spec_players(&self) -> Seq<MatchPlayer> {
        self.players@
    }

    pub closed spec fn spec_config(&self) -> Arc<GlobalConfig> {
        self.config
    }

    pub closed spec fn spec_is_public(&self) -> bool {
        self.is_public
    }

    pub closed spec fn spec_map(&self) -> MatchMap {
        self.map
    }

    /// A match on `map` between `players`, logged under a fresh random name.
    pub fn new(config: Arc<GlobalConfig>, is_public: bool, map: MatchMap, players: Vec<MatchPlayer>) -> (r:
        Self)
        ensures
            is_log_file_name(r.spec_log_file_name()),
            r.spec_players() == players@,
            r.spec_config() == config,
            r.spec_is_public() == is_public,
            r.spec_map() == map,
    {
        let mut log_file_name = gen_alphanumeric(LOG_NAME_LENGTH);
        let ghost stem = log_file_name@;
        log_file_name.append(".log");
        proof {
            reveal_strlit(".log");
            assert(log_file_name@.subrange(0, LOG_NAME_LENGTH as int) =~= stem);
            assert(log_file_name@.subrange(LOG_NAME_LENGTH as int, log_file_name@.len() as int)
                =~= log_suffix());
        }
        RunMatch { config, log_file_name, players, is_public, map }
    }

    /// The record of this match when it starts: playing, with its log path,
    /// visibility and map.
    pub fn new_match_data(&self) -> (r: NewMatch)
        ensures
            r.state == MatchState::Playing,
            r.log_path@ == self.spec_log_file_name(),
            r.is_public == self.spec_is_public(),
            r.map_id == Some(self.spec_map().id),
    {
        NewMatch {
            state: MatchState::Playing,
            log_path: self.log_file_name.clone(),
            is_public: self.is_public,
            map_id: Some(self.map.id),
        }
    }

    /// The code bundle to record for each player, in order.
    pub fn match_players_data(&self) -> (r: Vec<Option<i32>>)
        ensures
            r@ == self.spec_players().map_values(|p: MatchPlayer| code_bundle_of(p)),
    {
        let mut data: Vec<Option<i32>> = Vec::new();
        let mut i: usize = 0;
        while i < self.players.len()
            invariant
                i <= self.players@.len(),
                data@ == self.players@.subrange(0, i as int).map_values(
                    |p: MatchPlayer| code_bundle_of(p),
                ),
            decreases self.players@.len() - i,
        {
            let code_bundle_id = match &self.players[i] {
                MatchPlayer::BotVersion { version, .. } => Some(version.id),
                MatchPlayer::BotSpec { .. } => None,
            };
            data.push(code_bundle_id);
            i += 1;
            proof {
                assert(self.players@.subrange(0, i as int) =~= self.players@.subrange(
                    0,
                    i - 1,
                ).push(self.players@[i - 1]));
            }
        }
        proof {
            assert(self.players@.subrange(0, i as int) =~= self.players@);
        }
        data
    }

    /// The name of this match's log file.
    pub fn log_file_name(&self) -> (r: &String)
        ensures
            r@ == self.spec_log_file_name(),
    {
        &self.log_file_name
    }

    pub fn is_public(&self) -> (r: bool)
        ensures
            r == self.spec_is_public(),
    {
        self.is_public
    }

    pub fn map(&self) -> (r: &MatchMap)
        ensures
            *r == self.spec_map(),
    {
        &self.map
    }

    pub fn players(&self) -> (r: &Vec<MatchPlayer>)
        ensures
            r@ == self.spec_players(),
    {
        &self.players
    }

    pub fn config(&self) -> (r: &Arc<GlobalConfig>)
        ensures
            *r == self.spec_config(),
    {
        &self.config
    }
}

} // verus!
