use qicert::apache;
use qicert::certer::{CertBotError, Certer};
use qicert::domain::{Domain, DomainError};
use qicert::http_config::HttpConfig;
use qicert::linker::Linker;
use qicert::nginx;
use qicert::nginx::config_file::ConfigError;
use qicert::nginx::{Nginx, NginxError};
use qicert::provision::{resulting_content, Action, ProvisionError};
use qicert::sites::Sites;
use qicert::webroot::{WebRoot, WebRootError};

fn nginx_final_blocks(domain: &Domain) -> String {
    format!(
        "{}\n{}\n",
        HttpConfig::http_redirect_content(domain),
        HttpConfig::https_content(domain)
    )
}

fn apache_final_blocks(domain: &Domain) -> String {
    format!(
        "{}\n{}\n",
        apache::http_config::HttpConfig::http_redirect(domain),
        apache::http_config::HttpConfig::https_content(domain)
    )
}

#[test]
fn nginx_create_run_plans_full_workflow() {
    let domain = Domain::new("example", "com", None).unwrap();

    let plan = nginx::configurator::Configurator::append_or_create(&domain, None, true, true)
        .unwrap();

    assert_eq!(plan.len(), 13);
    assert!(matches!(plan[0], Action::CreateConfigFile));
    assert!(matches!(plan[1], Action::ChownConfigFile));
    assert!(matches!(plan[2], Action::CreateSymlink(ref f) if f == "example.com.conf"));
    let well_known = format!("{}\n", HttpConfig::http_well_known(&domain));
    assert!(matches!(plan[3], Action::WriteConfigText(ref t) if *t == well_known));
    assert!(matches!(plan[4], Action::CreateWebRoot));
    assert!(matches!(plan[5], Action::ValidateConfig));
    assert!(matches!(plan[6], Action::ReloadWebServer));
    assert!(matches!(plan[7], Action::IssueCertificate(ref d) if d == "example.com"));
    assert!(matches!(plan[8], Action::TruncateConfigFile));
    let redirect = format!("{}\n", HttpConfig::http_redirect_content(&domain));
    assert!(matches!(plan[9], Action::WriteConfigText(ref t) if *t == redirect));
    let https = format!("{}\n", HttpConfig::https_content(&domain));
    assert!(matches!(plan[10], Action::WriteConfigText(ref t) if *t == https));
    assert!(matches!(plan[11], Action::ValidateConfig));
    assert!(matches!(plan[12], Action::ReloadWebServer));

    let final_content = resulting_content("", &plan);
    assert_eq!(final_content, nginx_final_blocks(&domain));
}

#[test]
fn apache_create_run_plans_full_workflow() {
    let domain = Domain::new("example", "com", None).unwrap();

    let plan = apache::configurator::Configurator::append_or_create(&domain, None, true, true)
        .unwrap();

    assert_eq!(plan.len(), 11);
    assert!(matches!(plan[0], Action::CreateConfigFile));
    assert!(matches!(plan[1], Action::ChownConfigFile));
    let well_known = format!("{}\n", apache::http_config::HttpConfig::http_well_known(&domain));
    assert!(matches!(plan[2], Action::WriteConfigText(ref t) if *t == well_known));
    assert!(matches!(plan[3], Action::CreateWebRoot));
    assert!(matches!(plan[4], Action::EnableSite(ref s) if s == "example.com"));
    assert!(matches!(plan[5], Action::ReloadWebServer));
    assert!(matches!(plan[6], Action::IssueCertificate(ref d) if d == "example.com"));
    assert!(matches!(plan[7], Action::TruncateConfigFile));
    assert!(matches!(plan[10], Action::ReloadWebServer));

    let final_content = resulting_content("", &plan);
    assert_eq!(final_content, apache_final_blocks(&domain));
}

#[test]
fn nginx_append_preserves_existing_content() {
    let bare = Domain::new("example", "com", None).unwrap();
    let sub = Domain::new("example", "com", Some("test")).unwrap();

    // a file that already fully declares example.com, but not test.example.com
    let existing = nginx_final_blocks(&bare);

    let plan = nginx::configurator::Configurator::append_or_create(
        &sub,
        Some(existing.as_str()),
        true,
        true,
    )
    .unwrap();

    assert_eq!(plan.len(), 12);
    assert!(matches!(plan[0], Action::BackupConfigFile));
    let well_known = format!("{}\n", HttpConfig::http_well_known(&sub));
    assert!(matches!(plan[1], Action::WriteConfigText(ref t) if *t == well_known));
    assert!(matches!(plan[5], Action::IssueCertificate(ref d) if d == "test.example.com"));
    assert!(matches!(plan[6], Action::TruncateConfigFile));
    assert!(matches!(plan[7], Action::WriteConfigText(ref t) if *t == existing));

    let final_content = resulting_content(existing.as_str(), &plan);
    let expected = format!("{}{}", existing, nginx_final_blocks(&sub));
    assert_eq!(final_content, expected);
    assert!(final_content.starts_with(existing.as_str()));
}

#[test]
fn nginx_declared_domain_is_noop() {
    let domain = Domain::new("example", "com", None).unwrap();

    let existing = nginx_final_blocks(&domain);

    let plan = nginx::configurator::Configurator::append_or_create(
        &domain,
        Some(existing.as_str()),
        true,
        true,
    )
    .unwrap();

    assert_eq!(plan.len(), 1);
    assert!(matches!(plan[0], Action::BackupConfigFile));
    assert_eq!(resulting_content(existing.as_str(), &plan), existing);
}

#[test]
fn apache_declared_domain_is_noop() {
    let domain = Domain::new("example", "com", None).unwrap();

    let existing = apache_final_blocks(&domain);

    let plan = apache::configurator::Configurator::append_or_create(
        &domain,
        Some(existing.as_str()),
        true,
        true,
    )
    .unwrap();

    assert_eq!(plan.len(), 1);
    assert!(matches!(plan[0], Action::BackupConfigFile));
    assert_eq!(resulting_content(existing.as_str(), &plan), existing);
}

#[test]
fn missing_dependency_aborts_before_any_action() {
    let domain = Domain::new("example", "com", None).unwrap();

    let no_server =
        nginx::configurator::Configurator::append_or_create(&domain, None, false, true);
    assert!(matches!(no_server, Err(ProvisionError::MissingDependencies)));

    let no_certbot =
        apache::configurator::Configurator::append_or_create(&domain, None, true, false);
    assert!(matches!(no_certbot, Err(ProvisionError::MissingDependencies)));

    assert!(!nginx::configurator::Configurator::are_nginx_and_certbot_installed(false, true));
    assert!(!apache::configurator::Configurator::are_apache_and_certbot_installed(true, false));
    assert!(apache::configurator::Configurator::are_apache_and_certbot_installed(true, true));
}

#[test]
fn create_then_append_is_idempotent() {
    let domain = Domain::new("example", "com", Some("www")).unwrap();

    // first run: no file yet
    let first = nginx::configurator::Configurator::append_or_create(&domain, None, true, true)
        .unwrap();
    let once = resulting_content("", &first);

    // second run against the file the first run produced
    let second = nginx::configurator::Configurator::append_or_create(
        &domain,
        Some(once.as_str()),
        true,
        true,
    )
    .unwrap();
    assert_eq!(second.len(), 1);
    assert!(matches!(second[0], Action::BackupConfigFile));
    assert_eq!(resulting_content(once.as_str(), &second), once);

    // the same holds for the other backend
    let first = apache::configurator::Configurator::append_or_create(&domain, None, true, true)
        .unwrap();
    let once = resulting_content("", &first);
    let second = apache::configurator::Configurator::append_or_create(
        &domain,
        Some(once.as_str()),
        true,
        true,
    )
    .unwrap();
    assert_eq!(second.len(), 1);
    assert_eq!(resulting_content(once.as_str(), &second), once);
}

#[test]
fn distinguishing_parse_errors() {
    assert!(matches!(
        Domain::new("", "com", None),
        Err(DomainError::InvalidName)
    ));
    assert!(matches!(
        Domain::new("-example", "com", None),
        Err(DomainError::InvalidName)
    ));
    assert!(matches!(
        Domain::new("example", "", None),
        Err(DomainError::MissingTld)
    ));
    assert!(matches!(
        Domain::new("example", "a", None),
        Err(DomainError::TldTooShort)
    ));
    assert!(matches!(
        Domain::new("example", "c-m", None),
        Err(DomainError::InvalidTld)
    ));
    assert!(matches!(
        Domain::new("example", "com", Some("www.")),
        Err(DomainError::InvalidSubdomain)
    ));
}

#[test]
fn comment_marker_position_never_matches() {
    let domain = Domain::new("example", "com", None).unwrap();

    // marker at the start, in the middle, and at the end of the line
    let leading = "#server_name example.com;";
    let middle = "server_#name example.com;";
    let trailing = "server_name example.com; #";
    let clean = "server_name example.com;";

    assert!(!nginx::config_file::ConfigFile::find_domain_in_str(leading, &domain));
    assert!(!nginx::config_file::ConfigFile::find_domain_in_str(middle, &domain));
    assert!(!nginx::config_file::ConfigFile::find_domain_in_str(trailing, &domain));
    assert!(nginx::config_file::ConfigFile::find_domain_in_str(clean, &domain));
}

#[test]
fn scan_is_exact_on_file_text() {
    let domain = Domain::new("example", "com", None).unwrap();

    // the needle is lowercase-normalized; the file text is taken as it is
    assert!(!nginx::config_file::ConfigFile::find_domain_in_str(
        "server_name Example.com;",
        &domain
    ));
    assert!(!nginx::config_file::ConfigFile::find_domain_in_str(
        "SERVER_NAME example.com;",
        &domain
    ));
    assert!(nginx::config_file::ConfigFile::find_domain_in_str(
        "server_name example.com;",
        &domain
    ));
}

#[test]
fn subdomain_declaration_is_exact_both_ways() {
    let bare = Domain::new("example", "com", None).unwrap();
    let sub = Domain::new("example", "com", Some("test")).unwrap();

    let only_bare = "server {\n            server_name example.com;\n    }";
    let only_sub = "server {\n            server_name test.example.com;\n    }";

    assert!(nginx::config_file::ConfigFile::find_domain_in_str(only_bare, &bare));
    assert!(!nginx::config_file::ConfigFile::find_domain_in_str(only_bare, &sub));
    assert!(nginx::config_file::ConfigFile::find_domain_in_str(only_sub, &sub));
    assert!(!nginx::config_file::ConfigFile::find_domain_in_str(only_sub, &bare));

    let only_bare = "        ServerName example.com";
    let only_sub = "        ServerName test.example.com";

    assert!(apache::config_file::ConfigFile::find_domain_in_str(only_bare, &bare));
    assert!(!apache::config_file::ConfigFile::find_domain_in_str(only_bare, &sub));
    assert!(apache::config_file::ConfigFile::find_domain_in_str(only_sub, &sub));
    assert!(!apache::config_file::ConfigFile::find_domain_in_str(only_sub, &bare));
}

#[test]
fn adapter_decisions_map_outcomes_to_errors() {
    assert!(matches!(
        Nginx::check_and_reload(false, true, true),
        Err(NginxError::NotInstalled)
    ));
    assert!(matches!(
        Nginx::check_and_reload(true, false, true),
        Err(NginxError::BadConfiguration)
    ));
    assert!(matches!(
        Nginx::check_and_reload(true, true, false),
        Err(NginxError::CannotReload)
    ));
    assert!(Nginx::check_and_reload(true, true, true).is_ok());
    assert!(matches!(
        Nginx::reload(false),
        Err(NginxError::CannotReload)
    ));
    assert!(matches!(
        Nginx::check(false),
        Err(NginxError::BadConfiguration)
    ));

    assert!(matches!(
        apache::Apache::reload(false),
        Err(apache::ApacheError::CannotReload)
    ));
    assert!(apache::Apache::reload(true).is_ok());
    assert!(matches!(
        apache::Apache::enable_site(false),
        Err(apache::ApacheError::BadConfiguration)
    ));

    assert!(matches!(
        Certer::run(false, true),
        Err(CertBotError::NotInstalled)
    ));
    assert!(matches!(
        Certer::run(true, false),
        Err(CertBotError::ProcessFailure)
    ));
    assert!(Certer::run(true, true).is_ok());
    assert_eq!(Certer::challenge_dir(), "/var/www/.well-known/challenge");
}

#[test]
fn webroot_gate_and_creation_decisions() {
    assert!(!WebRoot::has_files(false, 3));
    assert!(!WebRoot::has_files(true, 0));
    assert!(WebRoot::has_files(true, 1));

    assert!(matches!(
        WebRoot::create_and_set_chown(true, true, true),
        Err(WebRootError::AlreadyExists)
    ));
    assert!(matches!(
        WebRoot::create_and_set_chown(false, false, true),
        Err(WebRootError::CreationFailure)
    ));
    assert!(matches!(
        WebRoot::create_and_set_chown(false, true, false),
        Err(WebRootError::CreationFailure)
    ));
    assert!(WebRoot::create_and_set_chown(false, true, true).is_ok());

    let domain = Domain::new("example", "com", Some("www")).unwrap();
    assert_eq!(
        WebRoot::build_path_string(&domain),
        "/var/www/www.example.com/public"
    );
}

#[test]
fn file_and_link_decisions() {
    assert!(matches!(
        nginx::config_file::ConfigFile::create(true, true),
        Err(ConfigError::FileExists)
    ));
    assert!(matches!(
        nginx::config_file::ConfigFile::create(false, false),
        Err(ConfigError::FileSaving)
    ));
    assert!(nginx::config_file::ConfigFile::create(false, true).is_ok());
    assert!(matches!(
        nginx::config_file::ConfigFile::chown_to_www(false, true),
        Err(ConfigError::FileSaving)
    ));
    assert!(nginx::config_file::ConfigFile::chown_to_www(true, true).is_ok());
    assert!(matches!(
        nginx::config_file::ConfigFile::create_backup(false),
        Err(ConfigError::FileSaving)
    ));
    assert!(matches!(
        nginx::config_file::ConfigFile::append(false),
        Err(ConfigError::InvalidPath)
    ));
    assert!(matches!(
        apache::config_file::ConfigFile::create(true, true),
        Err(apache::config_file::ConfigError::FileExists)
    ));
    assert!(apache::config_file::ConfigFile::create_backup(true).is_ok());

    assert!(Linker::link_exists(true, true));
    assert!(!Linker::link_exists(true, false));
    assert!(!Linker::link_exists(false, true));
    assert!(matches!(
        Linker::create(true, true),
        Err(ConfigError::SymlinkExists)
    ));
    assert!(matches!(
        Linker::create(false, false),
        Err(ConfigError::Linking)
    ));
    assert!(Linker::create(false, true).is_ok());

    let (available, enabled) = Sites::paths();
    assert_eq!(available, "/etc/nginx/sites-available");
    assert_eq!(enabled, "/etc/nginx/sites-enabled");
}

#[test]
fn domain_accessors_expose_normalized_parts() {
    let domain = Domain::new("Example", "COM", Some("WWW.Staging")).unwrap();

    assert_eq!(domain.get_name().get_name(), "example");
    assert_eq!(domain.get_tld().get(), "com");
    assert!(domain.has_subdomain());
    assert_eq!(domain.get_subdomain(), Some("www.staging".to_string()));
    assert_eq!(domain.name_with_tld(), "example.com");
    assert_eq!(domain.conf_file_name(), "example.com.conf");
    assert_eq!(domain.to_string(), "www.staging.example.com");

    let bare = Domain::new("example", "com", None).unwrap();
    assert!(!bare.has_subdomain());
    assert_eq!(bare.get_subdomain(), None);
}
