//! Per-server settings: which channels embed every posted link on their own.
use vstd::prelude::*;

verus! {

/// The settings of one server.
#[derive(Debug)]
pub struct ServerConfig {
    pub server_id: String,
    /// The channels whose links are embedded without a command.
    pub auto_embed_channels: Vec<String>,
    pub embed_enabled: bool,
}

/// Whether `channels` lists `channel`.
pub open spec fn lists(channels: Seq<String>, channel: Seq<char>) -> bool {
    exists|i: int| 0 <= i < channels.len() && #[trigger] channels[i]@ == channel
}

/// The settings stored for `server` in `configs`: the latest with its id.
pub open spec fn config_for(configs: Seq<ServerConfig>, server: Seq<char>) -> Option<ServerConfig>
    decreases configs.len(),
{
    if configs.len() == 0 {
        None
    } else if configs.last().server_id@ == server {
        Some(configs.last())
    } else {
        config_for(configs.drop_last(), server)
    }
}

/// Whether no two of `configs` share a server id.
pub open spec fn ids_unique(configs: Seq<ServerConfig>) -> bool {
    forall|i: int, j: int|
        0 <= i < j < configs.len() ==> #[trigger] configs[i].server_id@ != #[trigger] configs[j].server_id@
}

impl ServerConfig {
    /// Whether the channel `channel` embeds links on its own.
    pub open spec fn auto_embeds(&self, channel: Seq<char>) -> bool {
        lists(self.auto_embed_channels@, channel)
    }

    /// Fresh settings for `server_id`: embedding on, no auto-embed channel.
    pub fn new(server_id: &str) -> (r: Self)
        ensures
            r.server_id@ == server_id@,
            r.auto_embed_channels@.len() == 0,
            r.embed_enabled,
    {
        ServerConfig {
            server_id: server_id.to_owned(),
            auto_embed_channels: Vec::new(),
            embed_enabled: true,
        }
    }

    /// Whether `channel_id` embeds links on its own.
    pub fn is_auto_embed_channel(&self, channel_id: &str) -> (r: bool)
        ensures
            r == self.auto_embeds(channel_id@),
    {
        let wanted = channel_id.to_owned();
        let mut i: usize = 0;
        while i < self.auto_embed_channels.len()
            invariant
                0 <= i <= self.auto_embed_channels@.len(),
                wanted@ == channel_id@,
                forall|k: int| 0 <= k < i ==> #[trigger] self.auto_embed_channels@[k]@ != channel_id@,
            decreases self.auto_embed_channels@.len() - i,
        {
            if self.auto_embed_channels[i] == wanted {
                return true;
            }
            i += 1;
        }
        false
    }

    /// Makes `channel_id` embed links on its own; a channel already listed is
    /// not listed twice.
    pub fn add_auto_embed_channel(&mut self, channel_id: &str)
        ensures
            final(self).server_id == old(self).server_id,
            final(self).embed_enabled == old(self).embed_enabled,
            forall|c: Seq<char>|
                #[trigger] final(self).auto_embeds(c) == (old(self).auto_embeds(c) || c == channel_id@),
    {
        if !self.is_auto_embed_channel(channel_id) {
            let ghost before = self.auto_embed_channels@;
            self.auto_embed_channels.push(channel_id.to_owned());
            assert forall|c: Seq<char>| #[trigger]
                lists(self.auto_embed_channels@, c) == (lists(before, c) || c == channel_id@) by {
                if lists(before, c) {
                    let i = choose|i: int| 0 <= i < before.len() && #[trigger] before[i]@ == c;
                    assert(self.auto_embed_channels@[i] == before[i]);
                }
                if c == channel_id@ {
                    assert(self.auto_embed_channels@[before.len() as int]@ == c);
                }
                if lists(self.auto_embed_channels@, c) {
                    let i = choose|i: int|
                        0 <= i < self.auto_embed_channels@.len()
                            && #[trigger] self.auto_embed_channels@[i]@ == c;
                    if i < before.len() {
                        assert(before[i] == self.auto_embed_channels@[i]);
                    }
                }
            }
        }
    }

    /// Whether `other` holds the same settings.
    pub open spec fn same_as(&self, other: ServerConfig) -> bool {
        self.server_id@ == other.server_id@ && self.auto_embed_channels@ == other.auto_embed_channels@
            && self.embed_enabled == other.embed_enabled
    }

    /// An exact copy of these settings.
    pub fn duplicate(&self) -> (r: Self)
        ensures
            r.same_as(*self),
    {
        let mut channels: Vec<String> = Vec::new();
        let mut i: usize = 0;
        while i < self.auto_embed_channels.len()
            invariant
                0 <= i <= self.auto_embed_channels@.len(),
                channels@ == self.auto_embed_channels@.subrange(0, i as int),
            decreases self.auto_embed_channels@.len() - i,
        {
            channels.push(self.auto_embed_channels[i].clone());
            i += 1;
            assert(channels@ =~= self.auto_embed_channels@.subrange(0, i as int));
        }
        assert(channels@ =~= self.auto_embed_channels@);
        ServerConfig {
            server_id: self.server_id.clone(),
            auto_embed_channels: channels,
            embed_enabled: self.embed_enabled,
        }
    }
}

impl Default for ServerConfig {
    fn default() -> (r: Self)
        ensures
            r.server_id@.len() == 0,
            r.auto_embed_channels@.len() == 0,
            r.embed_enabled,
    {
        ServerConfig { server_id: String::new(), auto_embed_channels: Vec::new(), embed_enabled: true }
    }
}

/// The settings of every server that has its own.
pub struct ConfigManager {
    configs: Vec<ServerConfig>,
}

impl ConfigManager {
    /// The settings stored for `server`, if any.
    pub closed spec fn stored(&self, server: Seq<char>) -> Option<ServerConfig> {
        config_for(self.configs@, server)
    }

    /// The settings that apply to `server`: the stored ones, or fresh ones.
    pub open spec fn applies(&self, server: Seq<char>, c: ServerConfig) -> bool {
        match self.stored(server) {
            Some(s) => c.same_as(s),
            None => c.server_id@ == server && c.auto_embed_channels@.len() == 0 && c.embed_enabled,
        }
    }

    /// A manager with no stored settings.
    pub fn new() -> (r: Self)
        ensures
            r.wf(),
            forall|s: Seq<char>| #[trigger] r.stored(s) is None,
    {
        ConfigManager { configs: Vec::new() }
    }

    /// No two stored settings share a server id.
    pub closed spec fn wf(&self) -> bool {
        ids_unique(self.configs@)
    }

    /// Stores `config` for its server, in place of any settings stored before.
    pub fn set_server_config(&mut self, config: ServerConfig)
        requires
            old(self).wf(),
        ensures
            final(self).wf(),
            final(self).stored(config.server_id@) == Some(config),
            forall|s: Seq<char>|
                s != config.server_id@ ==> #[trigger] final(self).stored(s) == old(self).stored(s),
    {
        let ghost before = self.configs@;
        let ghost id = config.server_id@;
        let mut i: usize = 0;
        while i < self.configs.len()
            invariant
                self.configs@ == before,
                before == old(self).configs@,
                ids_unique(before),
                config.server_id@ == id,
                0 <= i <= before.len(),
                forall|k: int| 0 <= k < i ==> #[trigger] before[k].server_id@ != id,
            decreases before.len() - i,
        {
            if self.configs[i].server_id == config.server_id {
                proof {
                    lemma_replace(before, i as int, config);
                }
                let ghost replaced = config;
                self.configs.set(i, config);
                assert(self.configs@ == before.update(i as int, replaced));
                return;
            }
            i += 1;
        }
        proof {
            lemma_push_fresh(before, config);
        }
        self.configs.push(config);
    }

    /// The settings that apply to `server_id`.
    pub fn get_server_config(&self, server_id: &str) -> (r: ServerConfig)
        ensures
            self.applies(server_id@, r),
    {
        let wanted = server_id.to_owned();
        let mut i: usize = self.configs.len();
        assert(self.configs@.subrange(0, i as int) =~= self.configs@);
        while i > 0
            invariant
                0 <= i <= self.configs@.len(),
                wanted@ == server_id@,
                config_for(self.configs@.subrange(0, i as int), server_id@) == config_for(
                    self.configs@,
                    server_id@,
                ),
            decreases i,
        {
            let ghost head = self.configs@.subrange(0, i as int);
            assert(head.drop_last() =~= self.configs@.subrange(0, i - 1));
            assert(head.last() == self.configs@[i - 1]);
            if self.configs[i - 1].server_id == wanted {
                return self.configs[i - 1].duplicate();
            }
            i -= 1;
        }
        ServerConfig::new(server_id)
    }

    /// Whether `channel_id` of the server `guild_id` embeds links on its own.
    pub fn is_auto_embed_channel(&self, guild_id: &str, channel_id: &str) -> (r: bool)
        ensures
            exists|c: ServerConfig| self.applies(guild_id@, c) && r == c.auto_embeds(channel_id@),
    {
        let c = self.get_server_config(guild_id);
        c.is_auto_embed_channel(channel_id)
    }
}

/// With unique ids, the settings found for an id are the ones stored under it.
proof fn lemma_config_for_at(configs: Seq<ServerConfig>, k: int)
    requires
        ids_unique(configs),
        0 <= k < configs.len(),
    ensures
        config_for(configs, configs[k].server_id@) == Some(configs[k]),
    decreases configs.len(),
{
    if k < configs.len() - 1 {
        assert(configs.last() == configs[configs.len() - 1]);
        assert(configs.drop_last()[k] == configs[k]);
        lemma_config_for_at(configs.drop_last(), k);
    }
}

/// No settings are found for an id that none of them has.
proof fn lemma_config_for_none(configs: Seq<ServerConfig>, s: Seq<char>)
    requires
        forall|k: int| 0 <= k < configs.len() ==> #[trigger] configs[k].server_id@ != s,
    ensures
        config_for(configs, s) is None,
    decreases configs.len(),
{
    if configs.len() > 0 {
        assert(configs.last() == configs[configs.len() - 1]);
        assert forall|k: int| 0 <= k < configs.len() - 1 implies #[trigger] configs.drop_last()[k].server_id@
            != s by {
            assert(configs.drop_last()[k] == configs[k]);
        }
        lemma_config_for_none(configs.drop_last(), s);
    }
}

/// Replacing the settings of a server keeps ids unique, finds the new settings
/// under that id, and leaves every other id as it was.
proof fn lemma_replace(configs: Seq<ServerConfig>, i: int, config: ServerConfig)
    requires
        ids_unique(configs),
        0 <= i < configs.len(),
        configs[i].server_id@ == config.server_id@,
    ensures
        ids_unique(configs.update(i, config)),
        config_for(configs.update(i, config), config.server_id@) == Some(config),
        forall|s: Seq<char>|
            s != config.server_id@ ==> #[trigger] config_for(configs.update(i, config), s)
                == config_for(configs, s),
{
    let after = configs.update(i, config);
    assert forall|a: int, b: int| 0 <= a < b < after.len() implies #[trigger] after[a].server_id@
        != #[trigger] after[b].server_id@ by {
        assert(configs[a].server_id@ != configs[b].server_id@);
    }
    lemma_config_for_at(after, i);
    assert forall|s: Seq<char>| s != config.server_id@ implies #[trigger] config_for(after, s)
        == config_for(configs, s) by {
        if exists|k: int| 0 <= k < configs.len() && configs[k].server_id@ == s {
            let k = choose|k: int| 0 <= k < configs.len() && configs[k].server_id@ == s;
            assert(after[k] == configs[k]);
            lemma_config_for_at(configs, k);
            lemma_config_for_at(after, k);
        } else {
            lemma_config_for_none(configs, s);
            assert forall|k: int| 0 <= k < after.len() implies #[trigger] after[k].server_id@ != s by {
                if k != i {
                    assert(after[k] == configs[k]);
                }
            }
            lemma_config_for_none(after, s);
        }
    }
}

/// Adding settings for a new server keeps ids unique, finds them under their
/// id, and leaves every other id as it was.
proof fn lemma_push_fresh(configs: Seq<ServerConfig>, config: ServerConfig)
    requires
        ids_unique(configs),
        forall|k: int| 0 <= k < configs.len() ==> #[trigger] configs[k].server_id@ != config.server_id@,
    ensures
        ids_unique(configs.push(config)),
        config_for(configs.push(config), config.server_id@) == Some(config),
        forall|s: Seq<char>|
            s != config.server_id@ ==> #[trigger] config_for(configs.push(config), s) == config_for(
                configs,
                s,
            ),
{
    let after = configs.push(config);
    assert(after.drop_last() =~= configs);
    assert forall|a: int, b: int| 0 <= a < b < after.len() implies #[trigger] after[a].server_id@
        != #[trigger] after[b].server_id@ by {
        assert(after[a] == configs[a]);
        if b < configs.len() {
            assert(after[b] == configs[b]);
        }
    }
}

} // verus!
