//! The addresses of the Hive API.

use vstd::prelude::*;
use vstd::string::StringExecFns;

verus! {

/// The main Hive API URL: the address of most of the calls that read or
/// change Hive devices.
pub const BEEKEEPER_BASE_URL: &'static str = "https://beekeeper-uk.hivehome.com/1.0";

/// The URL of the weather API, which is apart from the main Hive API.
pub const WEATHER_BASE_URL: &'static str = "https://weather.prod.bgchprod.info/weather";

/// The endpoints of the Hive API.
pub enum Url<'a> {
    Products,
    /// The node of a product, by the product's type and id.
    Node { kind: Option<&'a str>, id: Option<&'a str> },
    /// The quick actions, or one of them by its id; with `activate`, the
    /// endpoint that activates it.
    Actions { id: Option<&'a str>, activate: bool },
    Device,
    Weather,
}

/// The address of an endpoint.
///
/// A node is addressed by type and id only where both are given; an action
/// is addressed by id where one is given, and `activate` counts only then.
pub open spec fn spec_base_url(url: Url<'_>) -> Seq<char> {
    match url {
        Url::Node { kind: Some(kind), id: Some(id) } => BEEKEEPER_BASE_URL@ + "/nodes/"@ + kind@
            + "/"@ + id@,
        Url::Actions { id: Some(id), activate } => if activate {
            BEEKEEPER_BASE_URL@ + "/actions/"@ + id@ + "/quick-action"@
        } else {
            BEEKEEPER_BASE_URL@ + "/actions/"@ + id@
        },
        Url::Actions { id: None, activate: _ } => BEEKEEPER_BASE_URL@ + "/actions"@,
        Url::Device => BEEKEEPER_BASE_URL@ + "/devices"@,
        Url::Products => BEEKEEPER_BASE_URL@ + "/products"@,
        Url::Node { kind: _, id: _ } => BEEKEEPER_BASE_URL@ + "/nodes"@,
        Url::Weather => WEATHER_BASE_URL@,
    }
}

/// The address of an endpoint.
pub fn get_base_url(url: &Url<'_>) -> (address: String)
    ensures
        address@ == spec_base_url(*url),
{
    match url {
        Url::Node { kind: Some(kind), id: Some(id) } => {
            let mut address = BEEKEEPER_BASE_URL.to_owned();
            address.append("/nodes/");
            address.append(kind);
            address.append("/");
            address.append(id);
            address
        },
        Url::Actions { id: Some(id), activate } => {
            let mut address = BEEKEEPER_BASE_URL.to_owned();
            address.append("/actions/");
            address.append(id);
            if *activate {
                address.append("/quick-action");
            }
            address
        },
        Url::Actions { id: None, activate: _ } => BEEKEEPER_BASE_URL.to_owned().concat("/actions"),
        Url::Device => BEEKEEPER_BASE_URL.to_owned().concat("/devices"),
        Url::Products => BEEKEEPER_BASE_URL.to_owned().concat("/products"),
        Url::Node { kind: _, id: _ } => BEEKEEPER_BASE_URL.to_owned().concat("/nodes"),
        Url::Weather => WEATHER_BASE_URL.to_owned(),
    }
}

} // verus!
