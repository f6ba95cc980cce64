use qicert::apache::config_file::ConfigFile;
use qicert::apache::http_config::HttpConfig;
use qicert::domain::Domain;

#[test]
fn find_domain_without_subdomain_file() {
    let domains = vec![
        (Domain::new("example", "com", None), true),
        (Domain::new("example", "com", Some("www")), false),
        (Domain::new("Example", "com", None), true),
        (Domain::new("example", "COM", None), true),
        (Domain::new("www", "example", None), false),
    ];

    let haystack = r#"
        <VirtualHost *:443>
            ServerName example.com
            SSLEngine on
            SSLCertificateFile "/path/to/example.com.cert"
            SSLCertificateKeyFile "/path/to/example.com.key"
        </VirtualHost>"#;

    for (domain, expected) in domains {
        if let Ok(domain) = domain {
            assert_eq!(
                ConfigFile::find_domain_in_str(haystack, &domain),
                expected,
                "domain: {domain}",
                domain = domain.to_string()
            );
        }
    }
}

#[test]
fn find_domain_with_subdomain_in_file() {
    let domains = vec![
        (Domain::new("example", "com", None), false),
        (Domain::new("example", "com", Some("www")), true),
        (Domain::new("Example", "com", None), false),
        (Domain::new("example", "COM", None), false),
        (Domain::new("www", "example", None), false),
    ];
    let haystack = r#"
        <VirtualHost *:443>
            ServerName www.example.com
            SSLEngine on
            SSLCertificateFile "/path/to/www.example.com.cert"
            SSLCertificateKeyFile "/path/to/www.example.com.key"
        </VirtualHost>"#;

    for (domain, expected) in domains {
        if let Ok(domain) = domain {
            assert_eq!(
                ConfigFile::find_domain_in_str(haystack, &domain),
                expected,
                "domain: {domain}",
                domain = domain.to_string()
            );
        }
    }
}

#[test]
fn find_domain_with_commented_lines() {
    let domains = vec![
        (Domain::new("example", "com", None), false),
        (Domain::new("example", "com", Some("www")), true),
        (Domain::new("Example", "com", None), false),
        (Domain::new("example", "COM", None), false),
        (Domain::new("www", "example", None), false),
    ];

    let haystack = "
            #ServerName example.com
            ServerName www.example.com
            #ServerName www.example
            #ServerName example.COM";

    for (domain, expected) in domains {
        if let Ok(domain) = domain {
            assert_eq!(
                ConfigFile::find_domain_in_str(haystack, &domain),
                expected,
                "domain: {domain}",
                domain = domain.to_string()
            );
        }
    }
}

#[test]
fn config_file_path_without_subdomain() {
    let domain = Domain::new_unchecked("example", "com", None);

    let expected = "/etc/apache/sites-available/example.com.conf".to_string();

    let file_path = ConfigFile::file_path(&domain);

    assert_eq!(file_path, expected);
}

#[test]
fn config_file_path_with_subdomain() {
    let domain = Domain::new_unchecked("example", "com", Some("www"));

    let expected = "/etc/apache/sites-available/example.com.conf".to_string();

    let file_path = ConfigFile::file_path(&domain);

    assert_eq!(file_path, expected);
}

#[test]
fn backup_file_path() {
    let domain = Domain::new_unchecked("example", "com", None);

    let expected = "/etc/apache/sites-available/example.com.conf.bak".to_string();

    let backup_path = ConfigFile::backup_path(&domain);

    assert_eq!(backup_path, expected);
}

#[test]
fn backup_file_path_with_subdomain() {
    let domain = Domain::new_unchecked("example", "com", Some("www"));

    let expected = "/etc/apache/sites-available/example.com.conf.bak".to_string();

    let backup_path = ConfigFile::backup_path(&domain);

    assert_eq!(backup_path, expected);
}

#[test]
fn http_well_known() {
    let expected = "\n    <VirtualHost *:80>\n        ServerAdmin webmaster@localhost\n        ServerName example.com\n        DocumentRoot /var/www/.well-known/challenge\n        ErrorLog ${APACHE_LOG_DIR}/error.log\n        CustomLog ${APACHE_LOG_DIR}/access.log combined\n    </VirtualHost>".to_string();

    let domain = Domain::new("example", "com", None).unwrap();

    let http_config = HttpConfig::http_well_known(&domain);

    assert_eq!(http_config, expected);
}

#[test]
fn http_well_known_with_short_subdomain() {
    let expected = "\n    <VirtualHost *:80>\n        ServerAdmin webmaster@localhost\n        ServerName test.example.com\n        DocumentRoot /var/www/.well-known/challenge\n        ErrorLog ${APACHE_LOG_DIR}/error.log\n        CustomLog ${APACHE_LOG_DIR}/access.log combined\n    </VirtualHost>".to_string();

    let domain = Domain::new("example", "com", Some("test")).unwrap();

    let http_config = HttpConfig::http_well_known(&domain);

    assert_eq!(http_config, expected);
}

#[test]
fn http_well_known_with_long_subdomain() {
    let expected = "\n    <VirtualHost *:80>\n        ServerAdmin webmaster@localhost\n        ServerName test1.staging1.example.com\n        DocumentRoot /var/www/.well-known/challenge\n        ErrorLog ${APACHE_LOG_DIR}/error.log\n        CustomLog ${APACHE_LOG_DIR}/access.log combined\n    </VirtualHost>".to_string();

    let domain = Domain::new("example", "com", Some("test1.staging1")).unwrap();

    let http_config = HttpConfig::http_well_known(&domain);

    assert_eq!(http_config, expected);
}

#[test]
fn http_redirect_to_https() {
    let expected = "\n    <VirtualHost *:80>\n        ServerName example.com\n\n        Redirect permanent / https://example.com/\n    </VirtualHost>".to_string();

    let domain = Domain::new("example", "com", None).unwrap();

    let http_config = HttpConfig::http_redirect(&domain);

    assert_eq!(http_config, expected);
}

#[test]
fn http_redirect_to_https_with_short_subdomain() {
    let expected = "\n    <VirtualHost *:80>\n        ServerName test.example.com\n\n        Redirect permanent / https://test.example.com/\n    </VirtualHost>".to_string();

    let domain = Domain::new("example", "com", Some("test")).unwrap();

    let http_config = HttpConfig::http_redirect(&domain);

    assert_eq!(http_config, expected);
}

#[test]
fn http_redirect_to_https_with_long_subdomain() {
    let expected = "\n    <VirtualHost *:80>\n        ServerName test1.staging1.example.com\n\n        Redirect permanent / https://test1.staging1.example.com/\n    </VirtualHost>".to_string();

    let domain = Domain::new("example", "com", Some("test1.staging1")).unwrap();

    let http_config = HttpConfig::http_redirect(&domain);

    assert_eq!(
        http_config, expected,
        "LEFT {http_config} \n\n RIGHT: {expected}"
    );
}

#[test]
fn https_block() {
    let expected = "\n    <VirtualHost *:443>\n        ServerName example.com\n    \n        Protocols h2 http/1.1\n    \n        SSLCertificateFile /etc/letsencrypt/live/example.com/fullchain.pem\n        SSLCertificateKeyFile /etc/letsencrypt/live/example.com/privkey.pem\n    \n        # Other Apache Configuration\n    \n    </VirtualHost>".to_string();

    let domain = Domain::new("example", "com", None).unwrap();

    let http_config = HttpConfig::https_content(&domain);

    assert_eq!(http_config, expected);
}

#[test]
fn https_block_with_short_subdomain() {
    let expected = "\n    <VirtualHost *:443>\n        ServerName test.example.com\n    \n        Protocols h2 http/1.1\n    \n        SSLCertificateFile /etc/letsencrypt/live/test.example.com/fullchain.pem\n        SSLCertificateKeyFile /etc/letsencrypt/live/test.example.com/privkey.pem\n    \n        # Other Apache Configuration\n    \n    </VirtualHost>".to_string();

    let domain = Domain::new("example", "com", Some("test")).unwrap();

    let http_config = HttpConfig::https_content(&domain);

    assert_eq!(http_config, expected);
}

#[test]
fn https_block_with_long_subdomain() {
    let expected = "\n    <VirtualHost *:443>\n        ServerName test1.staging1.example.com\n    \n        Protocols h2 http/1.1\n    \n        SSLCertificateFile /etc/letsencrypt/live/test1.staging1.example.com/fullchain.pem\n        SSLCertificateKeyFile /etc/letsencrypt/live/test1.staging1.example.com/privkey.pem\n    \n        # Other Apache Configuration\n    \n    </VirtualHost>".to_string();

    let domain = Domain::new("example", "com", Some("test1.staging1")).unwrap();

    let http_config = HttpConfig::https_content(&domain);

    assert_eq!(http_config, expected);
}
