//! Where a server takes its configuration from.
use vstd::prelude::*;

verus! {

/// A source of configuration.
#[derive(Clone, Copy, Debug)]
pub enum ConfigSource {
    /// What the server framework comes with.
    Defaults,
    /// A file, with a section for each profile.
    File { path: &'static str },
    /// The environment variables whose names start with `prefix`, for every profile.
    Environment { prefix: &'static str },
    /// A port, for every profile.
    Port { port: u16 },
}

/// What a source of configuration says.
pub ghost enum ConfigSourceView {
    Defaults,
    File { path: Seq<char> },
    Environment { prefix: Seq<char> },
    Port { port: u16 },
}

impl View for ConfigSource {
    type V = ConfigSourceView;

    open spec fn view(&self) -> ConfigSourceView {
        match *self {
            ConfigSource::Defaults => ConfigSourceView::Defaults,
            ConfigSource::File { path } => ConfigSourceView::File { path: path@ },
            ConfigSource::Environment { prefix } => ConfigSourceView::Environment {
                prefix: prefix@,
            },
            ConfigSource::Port { port } => ConfigSourceView::Port { port },
        }
    }
}

/// What a list of sources says.
pub open spec fn source_views(sources: Seq<ConfigSource>) -> Seq<ConfigSourceView> {
    sources.map_values(|source: ConfigSource| source@)
}

/// The sources of a server in the order in which they are merged, a later one going
/// before an earlier one: the defaults, the file, the environment, and the port where
/// one is given.
pub open spec fn merge_order(file: Seq<char>, prefix: Seq<char>, port: Option<u16>) -> Seq<
    ConfigSourceView,
> {
    let configured = seq![
        ConfigSourceView::Defaults,
        ConfigSourceView::File { path: file },
        ConfigSourceView::Environment { prefix },
    ];
    match port {
        Some(port) => configured.push(ConfigSourceView::Port { port }),
        None => configured,
    }
}

/// Lists the sources of a server in the order in which they are merged.
pub fn config_sources(file: &'static str, prefix: &'static str, port: Option<u16>) -> (sources: Vec<
    ConfigSource,
>)
    ensures
        source_views(sources@) == merge_order(file@, prefix@, port),
        sources@.len() == if port is Some { 4int } else { 3int },
        sources@[0] is Defaults,
        sources@[1] == (ConfigSource::File { path: file }),
        sources@[2] == (ConfigSource::Environment { prefix }),
        port matches Some(p) ==> sources@[3] == (ConfigSource::Port { port: p }),
{
    let mut sources: Vec<ConfigSource> = vec![
        ConfigSource::Defaults,
        ConfigSource::File { path: file },
        ConfigSource::Environment { prefix },
    ];
    if let Some(port) = port {
        sources.push(ConfigSource::Port { port });
    }
    sources
}

/// The ports that the machine is configured with.
pub ghost struct ConfiguredPorts {
    /// The port that the server framework comes with.
    pub default: u16,
    /// The port that a file gives for a profile, if it gives one: in its section for all
    /// profiles, else in that of the profile, else in its default section.
    pub file: spec_fn(Seq<char>, Seq<char>) -> Option<u16>,
    /// The port that the environment variables with a prefix give, if they give one.
    pub environment: spec_fn(Seq<char>) -> Option<u16>,
}

/// The port that a source gives for a profile.
pub open spec fn port_from(
    source: ConfigSourceView,
    profile: Seq<char>,
    ports: ConfiguredPorts,
) -> Option<u16> {
    match source {
        ConfigSourceView::Defaults => Some(ports.default),
        ConfigSourceView::File { path } => (ports.file)(path, profile),
        ConfigSourceView::Environment { prefix } => (ports.environment)(prefix),
        ConfigSourceView::Port { port } => Some(port),
    }
}

/// The port that a server with these sources is launched on: the last source that gives
/// one decides.
pub open spec fn launched_port(
    sources: Seq<ConfigSourceView>,
    profile: Seq<char>,
    ports: ConfiguredPorts,
) -> Option<u16>
    decreases sources.len(),
{
    if sources.len() == 0 {
        None
    } else if port_from(sources.last(), profile, ports) is Some {
        port_from(sources.last(), profile, ports)
    } else {
        launched_port(sources.drop_last(), profile, ports)
    }
}

/// The given port, else that of the environment, else that of the file, else the
/// default.
pub open spec fn chosen_port(
    file: Seq<char>,
    prefix: Seq<char>,
    profile: Seq<char>,
    port: Option<u16>,
    ports: ConfiguredPorts,
) -> u16 {
    if port is Some {
        port->0
    } else if (ports.environment)(prefix) is Some {
        (ports.environment)(prefix)->0
    } else if (ports.file)(file, profile) is Some {
        (ports.file)(file, profile)->0
    } else {
        ports.default
    }
}

/// Whatever the machine is configured with, the given port goes before the environment,
/// the environment before the file, and the file before the defaults. Nothing else is
/// looked at.
pub proof fn law_port_precedence(
    file: Seq<char>,
    prefix: Seq<char>,
    profile: Seq<char>,
    port: Option<u16>,
)
    ensures
        forall|ports: ConfiguredPorts| #[trigger]
            launched_port(merge_order(file, prefix, port), profile, ports) == Some(
                chosen_port(file, prefix, profile, port, ports),
            ),
{
    let sources = merge_order(file, prefix, None);
    assert(sources.drop_last().drop_last().last() == ConfigSourceView::Defaults);
    reveal_with_fuel(launched_port, 4);
    if port is Some {
        assert(merge_order(file, prefix, port).last() == (ConfigSourceView::Port {
            port: port->0,
        }));
    }
}

/// The sources of a server: the defaults, the file, the environment and, where one is
/// given, the port, in this order and no others.
pub proof fn law_merge_order(file: Seq<char>, prefix: Seq<char>, port: Option<u16>)
    ensures
        port is None ==> merge_order(file, prefix, port) == seq![
            ConfigSourceView::Defaults,
            ConfigSourceView::File { path: file },
            ConfigSourceView::Environment { prefix },
        ],
        port matches Some(p) ==> merge_order(file, prefix, port) == seq![
            ConfigSourceView::Defaults,
            ConfigSourceView::File { path: file },
            ConfigSourceView::Environment { prefix },
            ConfigSourceView::Port { port: p },
        ],
{
}

/// The port that a server is launched on: a given one, whatever else is configured; else
/// that of the environment, else that of the file, else the default.
pub proof fn law_launched_port(
    file: Seq<char>,
    prefix: Seq<char>,
    profile: Seq<char>,
    given: u16,
    ports: ConfiguredPorts,
)
    ensures
        launched_port(merge_order(file, prefix, Some(given)), profile, ports) == Some(given),
        (ports.environment)(prefix) is Some ==> launched_port(
            merge_order(file, prefix, None),
            profile,
            ports,
        ) == (ports.environment)(prefix),
        (ports.environment)(prefix) is None && (ports.file)(file, profile) is Some
            ==> launched_port(merge_order(file, prefix, None), profile, ports) == (ports.file)(
            file,
            profile,
        ),
        (ports.environment)(prefix) is None && (ports.file)(file, profile) is None
            ==> launched_port(merge_order(file, prefix, None), profile, ports) == Some(
            ports.default,
        ),
{
    law_port_precedence(file, prefix, profile, Some(given));
    law_port_precedence(file, prefix, profile, None);
}

/// The view of a source holds all that the source holds.
pub proof fn law_source_view(source: ConfigSource)
    ensures
        match source {
            ConfigSource::Defaults => source@ == ConfigSourceView::Defaults,
            ConfigSource::File { path } => source@ == (ConfigSourceView::File { path: path@ }),
            ConfigSource::Environment { prefix } => source@ == (ConfigSourceView::Environment {
                prefix: prefix@,
            }),
            ConfigSource::Port { port } => source@ == (ConfigSourceView::Port { port }),
        },
{
}

} // verus!
