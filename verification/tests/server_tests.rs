use ymap::csp::{csp_headers, csp_policy};
use ymap::server::{check_site_dir, check_stripe_key, contains, serve_dir, Certs, ServerError, StripeKeyKind};

#[test]
fn site_dir_checks() {
    assert!(matches!(check_site_dir(false, false), Err(ServerError::SiteDirMissing)));
    assert!(matches!(check_site_dir(true, false), Err(ServerError::SiteDirNotDir)));
    assert!(check_site_dir(true, true).is_ok());
    assert_eq!(ServerError::SiteDirMissing.message(), "Site directory does not exist");
    assert_eq!(ServerError::SiteDirNotDir.message(), "Site directory is not a directory");
}

#[test]
fn stripe_keys() {
    assert_eq!(check_stripe_key("sk_test_123", false).unwrap(), StripeKeyKind::Test);
    assert_eq!(check_stripe_key("sk_prod_123", true).unwrap(), StripeKeyKind::Live);
    let err = check_stripe_key("sk_prod_123", false).unwrap_err();
    assert!(matches!(err, ServerError::LiveStripeKeyOutsideProduction));
    assert_eq!(err.message(), "Shouldn't be using a live Stripe API key if not in production!!");
    assert!(contains("reproduce", "prod"));
    assert!(!contains("pro", "prod"));
    assert!(contains("abc", ""));
    assert!(!contains("", "a"));
}

#[test]
fn serving_the_site() {
    let dev = serve_dir("target/site".to_string(), true);
    assert_eq!(dev.dir, "target/site");
    assert!(!dev.precompressed_br && !dev.precompressed_gzip);
    let prod = serve_dir("target/site".to_string(), false);
    assert!(prod.precompressed_br && prod.precompressed_gzip);
}

#[test]
fn certificates() {
    assert!(Certs::get(None, false, Ok(()), Ok(String::new()), Ok(String::new())).unwrap().is_none());
    assert_eq!(
        Certs::files("/etc/certs"),
        ("/etc/certs/fullchain.pem".to_string(), "/etc/certs/privkey.pem".to_string())
    );
    let certs = Certs::get(
        Some("/etc/certs".to_string()),
        true,
        Ok(()),
        Ok("/real/fullchain.pem".to_string()),
        Ok("/real/privkey.pem".to_string()),
    )
    .unwrap()
    .unwrap();
    assert_eq!(certs.fullchain(), "/real/fullchain.pem");
    assert_eq!(certs.private_key(), "/real/privkey.pem");
    let err = Certs::get(Some("/nope".to_string()), false, Ok(()), Ok(String::new()), Ok(String::new())).unwrap_err();
    assert!(matches!(&err, ServerError::CertsDirMissing { path } if path == "/nope"));
    assert_eq!(err.message(), "Couldn't find certs directory at /nope");
    let missing = Certs::get(
        Some("/etc/certs".to_string()),
        true,
        Err("No such file or directory (os error 2)".to_string()),
        Ok("/real/fullchain.pem".to_string()),
        Ok("/real/privkey.pem".to_string()),
    )
    .unwrap_err();
    assert_eq!(missing.message(), "No such file or directory (os error 2)");
    let no_chain = Certs::get(Some("/c".to_string()), true, Ok(()), Err("gone".to_string()), Ok("/k".to_string())).unwrap_err();
    assert!(matches!(no_chain, ServerError::CertFile { message } if message == "gone"));
}

#[test]
fn content_security_policy() {
    let policy = csp_policy("wss://db.example.com");
    assert_eq!(policy.directive_map.len(), 6);
    let img = &policy.directive_map[&axum_csp::CspDirectiveType::ImgSrc];
    assert_eq!(
        img,
        &vec![axum_csp::CspValue::SelfSite, axum_csp::CspValue::Host { value: "https://*.stripe.com".to_string() }]
    );
    let connect = &policy.directive_map[&axum_csp::CspDirectiveType::ConnectSrc];
    assert_eq!(connect[1], axum_csp::CspValue::Host { value: "wss://db.example.com".to_string() });
}

#[test]
fn content_security_policy_header() {
    let (name, value) = csp_headers("wss://db.example.com");
    assert_eq!(name, "content-security-policy-report-only");
    assert_eq!(
        value,
        "connect-src 'self' https://api.stripe.com https://checkout.stripe.com wss://db.example.com; \
default-src 'self' https://*.js.stripe.com https://checkout.stripe.com https://hooks.stripe.com https://js.stripe.com; \
frame-src https://*.js.stripe.com https://checkout.stripe.com https://connect-js.stripe.com https://hooks.stripe.com https://js.stripe.com; \
img-src 'self' https://*.stripe.com; \
script-src 'self' https://*.js.stripe.com https://checkout.stripe.com https://connect-js.stripe.com https://js.stripe.com; \
style-src 'self' sha256-0hAheEzaMe6uXIKV4EehS9pu1am1lj/KnnzrOYqckXk="
    );
}
