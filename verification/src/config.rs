//! Upgrading configuration files written by earlier releases.

use vstd::prelude::*;
use crate::models::{
    duplicate_paths, spec_defaults_for_mode, spec_set_defaults_for_mode, AppConfig, ServerProfile,
    TransferMode, TransferPaths,
};

verus! {

/// A profile after the upgrade: a profile with no shared settings takes its
/// old push settings, or else its old pull settings; nothing else changes.
pub open spec fn spec_migrate_profile(p: ServerProfile) -> ServerProfile {
    if p.shared_paths is None {
        ServerProfile {
            shared_paths: match p.push_paths {
                Some(paths) => Some(paths),
                None => p.pull_paths,
            },
            ..p
        }
    } else {
        p
    }
}

/// Fills in the shared settings of every profile from the settings that
/// earlier releases kept per direction; profiles keep their order.
pub fn migrate_legacy_paths(config: &mut AppConfig)
    ensures
        final(config).servers@.len() == old(config).servers@.len(),
        forall|i: int|
            0 <= i < old(config).servers@.len() ==> final(config).servers@[i]
                == spec_migrate_profile(old(config).servers@[i]),
{
    let n = config.servers.len();
    for i in 0..n
        invariant
            n == old(config).servers@.len(),
            config.servers@.len() == n,
            forall|j: int| 0 <= j < i ==> config.servers@[j] == spec_migrate_profile(old(config).servers@[j]),
            forall|j: int| i <= j < n ==> config.servers@[j] == old(config).servers@[j],
    {
        if config.servers[i].shared_paths.is_none() {
            let shared = match &config.servers[i].push_paths {
                Some(paths) => Some(paths.duplicate()),
                None => duplicate_paths(&config.servers[i].pull_paths),
            };
            let mut server = config.servers[i].duplicate();
            server.shared_paths = shared;
            config.servers.set(i, server);
        }
    }
}

/// Deletes the profile at `index`; the answer says whether no profile is
/// left, in which case a new one must be created before the menu goes on.
pub fn remove_server(config: &mut AppConfig, index: usize) -> (needs_new_profile: bool)
    requires
        index < old(config).servers@.len(),
    ensures
        final(config).servers@ == old(config).servers@.remove(index as int),
        needs_new_profile == (final(config).servers@.len() == 0),
{
    config.servers.remove(index);
    config.servers.len() == 0
}

/// A profile after a confirmed transfer: it keeps the port used and the
/// settings used for that direction.
pub open spec fn spec_remember_transfer(
    server: ServerProfile,
    mode: TransferMode,
    port: u16,
    settings: TransferPaths,
) -> ServerProfile {
    spec_set_defaults_for_mode(ServerProfile { port, ..server }, mode, settings)
}

/// Records a confirmed transfer in the profile at `index`: its port becomes
/// `port` and `settings` become its saved settings for `mode`; the updated
/// profile is returned, and no other profile changes.
pub fn remember_transfer(
    config: &mut AppConfig,
    index: usize,
    mode: TransferMode,
    port: u16,
    settings: TransferPaths,
) -> (server: ServerProfile)
    requires
        index < old(config).servers@.len(),
    ensures
        server == spec_remember_transfer(old(config).servers@[index as int], mode, port, settings),
        final(config).servers@ == old(config).servers@.update(index as int, server),
{
    let mut server = config.servers[index].duplicate();
    server.port = port;
    server.set_defaults_for_mode(mode, settings);
    config.servers.set(index, server.duplicate());
    server
}

/// The next transfer in the same direction is offered what was remembered:
/// the saved settings for that direction and the port; the other direction's
/// saved settings are kept.
pub proof fn lemma_remembered_transfer_is_offered(
    server: ServerProfile,
    mode: TransferMode,
    other: TransferMode,
    port: u16,
    settings: TransferPaths,
)
    ensures
        spec_defaults_for_mode(spec_remember_transfer(server, mode, port, settings), mode) == Some(
            settings,
        ),
        spec_remember_transfer(server, mode, port, settings).port == port,
        other != mode ==> spec_defaults_for_mode(
            spec_remember_transfer(server, mode, port, settings),
            other,
        ) == spec_defaults_for_mode(server, other),
{
}

/// Upgrading is done once and for all: upgrading an upgraded profile changes nothing.
pub proof fn lemma_migrate_idempotent(p: ServerProfile)
    ensures
        spec_migrate_profile(spec_migrate_profile(p)) == spec_migrate_profile(p),
{
}

} // verus!
