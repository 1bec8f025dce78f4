use salfa_gate::config::Settings;
use salfa_gate::email::EmailRouting;

#[test]
fn enable_builds_the_zone_address() {
    let mut config = Settings::default();
    config.cf_zoneid = "023e105f4ecef8ad9ca31a8372d0c353";
    config.cf_accountid = "acct";
    let routing = EmailRouting::new(&config);
    assert_eq!(routing.zone_id(), "023e105f4ecef8ad9ca31a8372d0c353");
    assert_eq!(routing.account_id(), "acct");
    assert_eq!(
        routing.enable(),
        "https://api.cloudflare.com/client/v4/zones/023e105f4ecef8ad9ca31a8372d0c353/email/routing/enable"
    );
}

#[test]
fn default_settings_give_an_empty_zone() {
    let routing = EmailRouting::new(&Settings::default());
    assert_eq!(routing.zone_id(), "");
    assert_eq!(routing.account_id(), "");
    assert_eq!(routing.enable(), "https://api.cloudflare.com/client/v4/zones//email/routing/enable");
}
