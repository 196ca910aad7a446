//! Start-up configuration: the site-control policy and the listen address.

use crate::sites::parse_sites;
use crate::sites::site_entries;
use crate::text::text_of;
use vstd::prelude::*;
use vstd::string::*;

verus! {

/// The access policy in force: no restriction, an allowlist or a denylist of
/// host suffixes.
#[derive(Debug)]
pub enum SiteControl {
    Disable,
    Allow(Vec<String>),
    Block(Vec<String>),
}

/// The mathematical content of a [`SiteControl`]: each entry as its text.
pub enum SitePolicy {
    Disable,
    Allow(Seq<Seq<char>>),
    Block(Seq<Seq<char>>),
}

/// The texts of a list of strings, in order.
pub open spec fn texts(list: Seq<String>) -> Seq<Seq<char>> {
    Seq::new(list.len(), |i: int| list[i]@)
}

impl View for SiteControl {
    type V = SitePolicy;

    open spec fn view(&self) -> SitePolicy {
        match self {
            SiteControl::Disable => SitePolicy::Disable,
            SiteControl::Allow(list) => SitePolicy::Allow(texts(list@)),
            SiteControl::Block(list) => SitePolicy::Block(texts(list@)),
        }
    }
}

/// The message for a start-up value that could not be read.
pub fn einfo(info: &str) -> (message: String)
    ensures
        message@ == "Unable to parse "@ + info@,
{
    String::from_str("Unable to parse ").concat(info)
}

/// The address to listen on where the command line names none.
pub const DEFAULT_LISTEN: &'static str = "0.0.0.0:32767";

/// The configuration of the proxy. It is made once, before the listener
/// starts, and only read from then on.
#[derive(Debug)]
pub struct Config {
    /// The address to listen on, as `IP:port`.
    pub listen: String,
    /// Whether the proxy detaches from the terminal.
    pub daemon: bool,
    /// The access policy.
    pub site_control: SiteControl,
}

/// The mathematical content of a [`Config`].
pub struct Settings {
    pub listen: Seq<char>,
    pub daemon: bool,
    pub policy: SitePolicy,
}

impl View for Config {
    type V = Settings;

    open spec fn view(&self) -> Settings {
        Settings { listen: self.listen@, daemon: self.daemon, policy: self.site_control@ }
    }
}

/// What the command line gave. For each of the two list options the field
/// holds the text of the file that the option names.
#[derive(Debug)]
pub struct Arguments {
    pub listen: Option<String>,
    pub daemon: bool,
    pub allow_all: bool,
    pub block_site: Option<String>,
    pub allowed_site: Option<String>,
}

/// The policy that the site-control options choose: none at all with
/// `allow_all`, else the denylist where one is given, else the allowlist.
/// Without any of the three there is no policy.
pub open spec fn chosen_policy(
    allow_all: bool,
    block_site: Option<Seq<char>>,
    allowed_site: Option<Seq<char>>,
) -> Option<SitePolicy> {
    if allow_all {
        Some(SitePolicy::Disable)
    } else if block_site is Some {
        Some(SitePolicy::Block(site_entries(block_site->0)))
    } else if allowed_site is Some {
        Some(SitePolicy::Allow(site_entries(allowed_site->0)))
    } else {
        None
    }
}

/// The listen address that the command line chooses.
pub open spec fn chosen_listen(listen: Option<Seq<char>>) -> Seq<char> {
    match listen {
        Some(address) => address,
        None => DEFAULT_LISTEN@,
    }
}

/// Makes the configuration from what the command line gave. There is none
/// where no site-control option was given.
pub fn parse_config(arguments: Arguments) -> (config: Option<Config>)
    ensures
        match config {
            Some(made) => chosen_policy(
                arguments.allow_all,
                text_of(arguments.block_site),
                text_of(arguments.allowed_site),
            ) == Some(made@.policy) && made@.listen == chosen_listen(text_of(arguments.listen))
                && made@.daemon == arguments.daemon,
            None => chosen_policy(
                arguments.allow_all,
                text_of(arguments.block_site),
                text_of(arguments.allowed_site),
            ) is None,
        },
{
    let site_control = if arguments.allow_all {
        SiteControl::Disable
    } else if let Some(text) = arguments.block_site {
        SiteControl::Block(parse_sites(text.as_str()))
    } else if let Some(text) = arguments.allowed_site {
        SiteControl::Allow(parse_sites(text.as_str()))
    } else {
        return None;
    };
    let listen = match arguments.listen {
        Some(address) => address,
        None => String::from_str(DEFAULT_LISTEN),
    };
    Some(Config { listen, daemon: arguments.daemon, site_control })
}

} // verus!
