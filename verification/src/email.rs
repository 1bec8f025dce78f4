//! Email routing at the DNS provider: mail for the device's zone is handed on
//! to a server of the owner's choice.
//!
//! | Action                        | Method  |
//! |-------------------------------|---------|
//! | Enable email routing          | POST    |
//! | Create a destination address  | POST    |
//! | List routing rules            | GET     |
//! | Delete a routing rule         | DELETE  |
//! | Update the catch-all rule     | PUT     |

use crate::config::Settings;
use vstd::prelude::*;
use vstd::string::*;

verus! {

/// Root of every address of the provider's API.
pub const API_PREFIX: &'static str = "https://api.cloudflare.com/client/v4";

/// The address that switches email routing on for the zone `zone_id`.
pub open spec fn enable_url(zone_id: Seq<char>) -> Seq<char> {
    API_PREFIX@ + "/zones/"@ + zone_id + "/email/routing/enable"@
}

/// The zone and the account that routing requests are made for.
#[derive(Clone, Copy, Debug)]
pub struct EmailRouting<'t> {
    zone_id: &'t str,
    account_id: &'t str,
}

impl<'t> EmailRouting<'t> {
    /// The zone that requests are made for.
    pub closed spec fn spec_zone_id(&self) -> Seq<char> {
        self.zone_id@
    }

    /// The account that requests are made for.
    pub closed spec fn spec_account_id(&self) -> Seq<char> {
        self.account_id@
    }

    /// Takes the zone and the account from the device's settings.
    pub fn new(config: &Settings) -> (routing: EmailRouting<'t>)
        ensures
            routing.spec_zone_id() == config.cf_zoneid@,
            routing.spec_account_id() == config.cf_accountid@,
    {
        EmailRouting { zone_id: config.cf_zoneid, account_id: config.cf_accountid }
    }

    /// The zone that requests are made for.
    pub fn zone_id(&self) -> (id: &'t str)
        ensures
            id@ == self.spec_zone_id(),
    {
        self.zone_id
    }

    /// The account that requests are made for.
    pub fn account_id(&self) -> (id: &'t str)
        ensures
            id@ == self.spec_account_id(),
    {
        self.account_id
    }

    /// The address to which the request that enables routing for the zone is
    /// posted.
    pub fn enable(&self) -> (url: String)
        ensures
            url@ == enable_url(self.spec_zone_id()),
    {
        let mut url = String::from_str(API_PREFIX);
        url.append("/zones/");
        url.append(self.zone_id);
        url.append("/email/routing/enable");
        url
    }
}

} // verus!
