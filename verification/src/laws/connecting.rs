//! Connections reach the server, the database and the account that were saved.
use vstd::prelude::*;
use vstd::string::*;

use crate::db::connect::{
    columns_of, metadata_plan, metadata_result, reusable_port, settings_for, tunnel_arguments,
    tunnel_for, ActiveTunnelView, CatalogColumnView, MetadataReplyView, TunnelSettingsView,
};
use crate::db::{OutputView, RequestView, TableRefView};
use crate::storage::ConnectionProfileView;
use crate::text::{decimal, decimals_differ};

verus! {

/// A connection logs in as the user of its profile, at the host of its profile, to the database that was
/// asked for, with the protection that the profile asks for. It goes straight to the port of the profile, or
/// to the local end of the tunnel.
pub proof fn connections_follow_their_profile(
    profile: ConnectionProfileView,
    password: Option<Seq<char>>,
    environment: Option<Seq<char>>,
    database: Seq<char>,
    tunnel_port: Option<u16>,
)
    ensures
        ({
            let settings = settings_for(profile, password, environment, database, tunnel_port);
            &&& settings.user == profile.user
            &&& settings.host == profile.host
            &&& settings.database == database
            &&& settings.require_tls == profile.require_tls
            &&& tunnel_port is None ==> settings.port == profile.port && !settings.through_localhost
            &&& tunnel_port matches Some(port) ==> settings.port == port
                && settings.through_localhost
        }),
{
}

/// Neither the display name nor the id nor the default database of a profile matters to a connection, and the
/// saved password matters only where it is the one that was handed over.
pub proof fn connections_ignore_how_a_profile_is_listed(
    profile: ConnectionProfileView,
    other: ConnectionProfileView,
    password: Option<Seq<char>>,
    environment: Option<Seq<char>>,
    database: Seq<char>,
    tunnel_port: Option<u16>,
)
    requires
        other == (ConnectionProfileView {
            id: other.id,
            name: other.name,
            database: other.database,
            password: other.password,
            ssh: other.ssh,
            ..profile
        }),
    ensures
        settings_for(profile, password, environment, database, tunnel_port) == settings_for(
            other,
            password,
            environment,
            database,
            tunnel_port,
        ),
{
}

/// Profiles with different users, hosts or protection, and different databases, give different connections.
pub proof fn different_accounts_give_different_connections(
    profile: ConnectionProfileView,
    other: ConnectionProfileView,
    password: Option<Seq<char>>,
    environment: Option<Seq<char>>,
    database: Seq<char>,
    other_database: Seq<char>,
    tunnel_port: Option<u16>,
)
    ensures
        ({
            let one = settings_for(profile, password, environment, database, tunnel_port);
            let two = settings_for(other, password, environment, other_database, tunnel_port);
            &&& profile.user != other.user ==> one.user != two.user
            &&& profile.host != other.host ==> one.host != two.host
            &&& profile.require_tls != other.require_tls ==> one.require_tls != two.require_tls
            &&& database != other_database ==> one.database != two.database
            &&& tunnel_port is None && profile.port != other.port ==> one.port != two.port
        }),
{
}

/// Whether the first argument that equals a flag is followed by a value.
pub open spec fn option_is(arguments: Seq<Seq<char>>, flag: Seq<char>, value: Seq<char>) -> bool {
    exists|i: int|
        0 <= i < arguments.len() - 1 && arguments[i] == flag && #[trigger] arguments[i + 1] == value
            && forall|j: int| 0 <= j < i ==> #[trigger] arguments[j] != flag
}

/// Whether ssh gets a setting by `-o`.
pub open spec fn sets(arguments: Seq<Seq<char>>, setting: Seq<char>) -> bool {
    exists|i: int|
        0 <= i < arguments.len() - 1 && arguments[i] == "-o"@ && #[trigger] arguments[i + 1]
            == setting
}

/// Whether a key is configured.
pub open spec fn has_key(settings: TunnelSettingsView) -> bool {
    settings.ssh.identity_file is Some && settings.ssh.identity_file->Some_0.len() > 0
}

/// The command line of a tunnel logs in as the configured SSH user, at the configured SSH port, on the
/// configured SSH host, with the configured key. It forwards the local port, on this machine alone, to the
/// database, and never asks or trusts unknown hosts.
pub proof fn tunnels_follow_their_settings(settings: TunnelSettingsView, local_port: u16)
    ensures
        ({
            let arguments = tunnel_arguments(settings, local_port);
            &&& option_is(arguments, "-l"@, settings.ssh.user)
            &&& option_is(arguments, "-p"@, decimal(settings.ssh.port as nat))
            &&& arguments.last() == settings.ssh.host
            &&& has_key(settings) ==> exists|i: int|
                0 <= i < arguments.len() - 2 && arguments[i] == "-i"@ && #[trigger] arguments[i + 1]
                    == settings.ssh.identity_file->Some_0
            &&& option_is(
                arguments,
                "-L"@,
                "127.0.0.1:"@ + decimal(local_port as nat) + ":"@ + (
                if settings.database_host.contains(':') {
                    "["@ + settings.database_host + "]"@
                } else {
                    settings.database_host
                }) + ":"@ + decimal(settings.database_port as nat),
            )
            &&& sets(arguments, "BatchMode=yes"@) && sets(arguments, "StrictHostKeyChecking=yes"@)
                && sets(arguments, "ExitOnForwardFailure=yes"@)
            &&& arguments.contains("-N"@) && arguments.contains("-T"@)
        }),
{
    reveal_strlit("-N");
    reveal_strlit("-T");
    reveal_strlit("-o");
    reveal_strlit("-L");
    reveal_strlit("-p");
    reveal_strlit("-l");
    reveal_strlit("BatchMode=yes");
    reveal_strlit("StrictHostKeyChecking=yes");
    reveal_strlit("ExitOnForwardFailure=yes");
    reveal_strlit("ConnectTimeout=10");
    reveal_strlit("ServerAliveInterval=30");
    reveal_strlit("ServerAliveCountMax=3");
    reveal_strlit("127.0.0.1:");
    let arguments = tunnel_arguments(settings, local_port);
    assert("-N"@[1] == 'N' && "-T"@[1] == 'T' && "-o"@[1] == 'o' && "-L"@[1] == 'L' && "-p"@[1]
        == 'p' && "-l"@[1] == 'l');
    crate::text::decimal_parses_back(settings.ssh.port as nat);
    lemma_digits_are_no_flag(settings.ssh.port as nat);
    assert(arguments[15][0] == '1');
    assert(arguments[15].len() > 2);
    assert(arguments[14] == "-L"@);
    assert(arguments[16] == "-p"@ && arguments[16int + 1] == decimal(settings.ssh.port as nat));
    assert(arguments[18] == "-l"@ && arguments[18int + 1] == settings.ssh.user);
    assert(arguments[2] == "-o"@ && arguments[2int + 1] == "BatchMode=yes"@);
    assert(arguments[4] == "-o"@ && arguments[4int + 1] == "StrictHostKeyChecking=yes"@);
    assert(arguments[6] == "-o"@ && arguments[6int + 1] == "ExitOnForwardFailure=yes"@);
    assert(arguments[14int + 1] == arguments[15]);
    assert(arguments[0] == "-N"@ && arguments[1] == "-T"@);
    if has_key(settings) {
        assert(arguments[20] == "-i"@ && arguments[20int + 1] == settings.ssh.identity_file->Some_0);
    }
}

proof fn lemma_digits_are_no_flag(n: nat)
    ensures
        decimal(n).len() > 0,
        decimal(n)[0] != '-',
    decreases n,
{
    if n >= 10 {
        lemma_digits_are_no_flag(n / 10);
        assert(decimal(n) == decimal(n / 10).push(crate::text::digit(n % 10)));
    }
}

/// Two tunnels have the same command line only if they log in as the same user, at the same port of the same
/// host, with the same key.
pub proof fn different_tunnels_have_different_commands(
    settings: TunnelSettingsView,
    other: TunnelSettingsView,
    local_port: u16,
)
    requires
        tunnel_arguments(settings, local_port) == tunnel_arguments(other, local_port),
    ensures
        settings.ssh.user == other.ssh.user,
        settings.ssh.host == other.ssh.host,
        settings.ssh.port == other.ssh.port,
        has_key(settings) ==> settings.ssh.identity_file == other.ssh.identity_file,
{
    let one = tunnel_arguments(settings, local_port);
    let two = tunnel_arguments(other, local_port);
    assert(one[19] == settings.ssh.user && two[19] == other.ssh.user);
    assert(one[17] == decimal(settings.ssh.port as nat) && two[17] == decimal(
        other.ssh.port as nat,
    ));
    if settings.ssh.port != other.ssh.port {
        decimals_differ(settings.ssh.port as nat, other.ssh.port as nat);
    }
    assert(one.last() == settings.ssh.host && two.last() == other.ssh.host);
    if has_key(settings) {
        assert(one.len() == 23);
        assert(one[21] == settings.ssh.identity_file->Some_0);
        assert(two[21] == other.ssh.identity_file->Some_0);
    }
}

/// A profile with an SSH gateway is reached through it, and the tunnel leads to the host and port of the
/// profile; a profile without one is reached directly.
pub proof fn gateways_lead_to_the_database(profile: ConnectionProfileView)
    ensures
        tunnel_for(profile) is Some <==> profile.ssh is Some,
        tunnel_for(profile) matches Some(settings) ==> Some(settings.ssh) == profile.ssh
            && settings.database_host == profile.host && settings.database_port == profile.port,
{
}

/// The database in which a request looks into the catalog.
pub open spec fn browsed_database(request: RequestView) -> Seq<char> {
    match request {
        RequestView::Databases { profile, .. } => profile.database,
        RequestView::Schemas { database, .. } => database,
        RequestView::Tables { database, .. } => database,
        _ => Seq::empty(),
    }
}

/// Databases, schemas and tables are looked up with the profile and the password of the request, in the very
/// database that it names; only the list of databases comes from the default database of the profile. A
/// schema is handed over as a parameter.
pub proof fn browsing_looks_where_it_was_asked(request: RequestView)
    ensures
        metadata_plan(request) is Ok <==> request is Databases || request is Schemas
            || request is Tables,
        request matches RequestView::Databases { profile, password } ==> {
            let query = metadata_plan(request)->Ok_0;
            query.profile == profile && query.password == password && query.database
                == profile.database && query.parameters.len() == 0
        },
        request matches RequestView::Schemas { profile, password, database } ==> {
            let query = metadata_plan(request)->Ok_0;
            query.profile == profile && query.password == password && query.database == database
                && query.parameters.len() == 0
        },
        request matches RequestView::Tables { profile, password, database, schema } ==> {
            let query = metadata_plan(request)->Ok_0;
            query.profile == profile && query.password == password && query.database == database
                && query.parameters == seq![schema]
        },
{
}

/// What comes back is listed below the very place that was looked at: under the profile, the database and the
/// schema of the query.
pub proof fn listings_are_labelled_with_their_place(request: RequestView, reply: MetadataReplyView)
    requires
        metadata_result(request, reply) is Ok,
    ensures
        metadata_plan(request) is Ok,
        match metadata_result(request, reply)->Ok_0 {
            OutputView::Databases { profile_id, names } => request is Databases && profile_id
                == metadata_plan(request)->Ok_0.profile.id && reply
                == MetadataReplyView::Names(names),
            OutputView::Schemas { profile_id, database, names } => request is Schemas && profile_id
                == metadata_plan(request)->Ok_0.profile.id && database == metadata_plan(
                request,
            )->Ok_0.database && reply == MetadataReplyView::Names(names),
            OutputView::Tables { profile_id, database, schema, tables } => {
                let query = metadata_plan(request)->Ok_0;
                &&& request is Tables
                &&& profile_id == query.profile.id && database == query.database
                &&& query.parameters == seq![schema]
                &&& reply matches MetadataReplyView::Relations(relations) && relations.len()
                    == tables.len() && forall|i: int|
                    0 <= i < tables.len() ==> (#[trigger] tables[i]) == (TableRefView {
                        profile_id,
                        database,
                        schema,
                        name: relations[i].0,
                        kind: relations[i].1,
                    })
            },
            _ => false,
        },
{
}

/// Catalog requests are answered by the reply of their kind, and by no other.
pub proof fn listings_come_from_matching_replies(request: RequestView, reply: MetadataReplyView)
    ensures
        metadata_result(request, reply) is Ok <==> (if request is Tables {
            reply is Relations
        } else {
            (request is Databases || request is Schemas) && reply is Names
        }),
{
}

/// Columns keep their catalog name, type and key, in catalog order. A column can be edited where it is stored,
/// and filled where the server does not generate it, but only in tables and partitioned tables.
pub proof fn columns_follow_the_catalog(table: TableRefView, catalog: Seq<CatalogColumnView>, i: int)
    requires
        0 <= i < catalog.len(),
    ensures
        columns_of(table, catalog).len() == catalog.len(),
        ({
            let column = columns_of(table, catalog)[i];
            let written = table.kind == "table"@ || table.kind == "partitioned table"@;
            &&& column.name == catalog[i].name && column.data_type == catalog[i].data_type
            &&& column.primary_key == catalog[i].primary_key
            &&& column.editable == (written && catalog[i].stored)
            &&& column.insertable == (written && catalog[i].insertable)
        }),
{
}

/// A tunnel that no longer runs serves nothing, and neither does that of another profile.
pub proof fn dead_tunnels_serve_nothing(
    tunnels: Map<Seq<char>, ActiveTunnelView>,
    profile_id: Seq<char>,
    settings: TunnelSettingsView,
)
    ensures
        reusable_port(tunnels, profile_id, settings, false) is None,
        reusable_port(tunnels.remove(profile_id), profile_id, settings, true) is None,
{
}

} // verus!
