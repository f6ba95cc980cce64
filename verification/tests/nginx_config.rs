use qicert::domain::Domain;
use qicert::http_config::HttpConfig;
use qicert::nginx::config_file::ConfigFile;
use qicert::webroot::WebRoot;

#[test]
fn config_file_find_domain_without_subdomain_file() {
    let domains = vec![
        (Domain::new("example", "com", None), true),
        (Domain::new("example", "com", Some("www")), false),
        (Domain::new("Example", "com", None), true),
        (Domain::new("example", "COM", None), true),
        (Domain::new("www", "example", None), false),
    ];

    let haystack = "server { \n                server_name example.com;\n        }";

    for (domain, expected) in domains {
        if let Ok(domain) = domain {
            assert_eq!(
                ConfigFile::find_domain_in_str(haystack, &domain),
                expected,
                "domain: {domain}",
                domain = domain.to_string()
            );
        }
    }
}

#[test]
fn config_file_find_domain_with_subdomain_in_file() {
    let domains = vec![
        (Domain::new("example", "com", None), false),
        (Domain::new("example", "com", Some("www")), true),
        (Domain::new("Example", "com", None), false),
        (Domain::new("example", "COM", None), false),
        (Domain::new("www", "example", None), false),
    ];

    let haystack = "server {
            server_name www.example.com;
        }";

    for (domain, expected) in domains {
        if let Ok(domain) = domain {
            assert_eq!(
                ConfigFile::find_domain_in_str(haystack, &domain),
                expected,
                "domain: {domain}",
                domain = domain.to_string()
            );
        }
    }
}

#[test]
fn find_domain_with_commencted_lines() {
    let domains = vec![
        (Domain::new("example", "com", None), false),
        (Domain::new("example", "com", Some("www")), true),
        (Domain::new("Example", "com", None), false),
        (Domain::new("example", "COM", None), false),
        (Domain::new("www", "example", None), false),
    ];

    let haystack = "server {
            #server_name example.com;
            server_name www.example.com;
            #server_name www.example;
            #server_name example.COM;
        }";

    for (domain, expected) in domains {
        if let Ok(domain) = domain {
            assert_eq!(
                ConfigFile::find_domain_in_str(haystack, &domain),
                expected,
                "domain: {domain}",
                domain = domain.to_string()
            );
        }
    }
}

#[test]
fn config_file_config_file_path_without_subdomain() {
    let domain = Domain::new_unchecked("example", "com", None);

    let expected = "/etc/nginx/sites-available/example.com.conf".to_string();

    let file_path = ConfigFile::file_path(&domain);

    assert_eq!(file_path, expected);
}

#[test]
fn config_file_config_file_path_with_subdomain() {
    let domain = Domain::new_unchecked("example", "com", Some("www"));

    let expected = "/etc/nginx/sites-available/example.com.conf".to_string();

    let file_path = ConfigFile::file_path(&domain);

    assert_eq!(file_path, expected);
}

#[test]
fn config_file_backup_file_path() {
    let domain = Domain::new_unchecked("example", "com", None);

    let expected = "/etc/nginx/sites-available/example.com.conf.bak".to_string();

    let backup_path = ConfigFile::backup_path(&domain);

    assert_eq!(backup_path, expected);
}

#[test]
fn config_file_backup_file_path_with_subdomain() {
    let domain = Domain::new_unchecked("example", "com", Some("www"));

    let expected = "/etc/nginx/sites-available/example.com.conf.bak".to_string();

    let backup_path = ConfigFile::backup_path(&domain);

    assert_eq!(backup_path, expected);
}

#[test]
fn acme_challenge_block_no_subdomain() {
    let expected = "server {\n            listen 80;\n    \n            server_name example.com;\n    \n            location ^~ /.well-known/acme-challenge/ {\n                root /var/www/example.com/public;\n                allow all;\n                default_type \"text/plain\";\n            }\n    }".to_string();

    let domain = Domain::try_from("example.com").unwrap();

    let challenge_block = HttpConfig::http_well_known(&domain);

    assert_eq!(challenge_block, expected);
}

#[test]
fn acme_challenge_block_with_subdomain() {
    let expected = "server {\n            listen 80;\n    \n            server_name test.example.com;\n    \n            location ^~ /.well-known/acme-challenge/ {\n                root /var/www/test.example.com/public;\n                allow all;\n                default_type \"text/plain\";\n            }\n    }".to_string();

    let domain = Domain::try_from("test.example.com").unwrap();

    let challenge_block = HttpConfig::http_well_known(&domain);

    assert_eq!(challenge_block, expected);
}

#[test]
fn https_block_no_subdomain() {
    let expected = "server {\n            server_name example.com;\n            listen 443 ssl;\n        \n            ssl_certificate /etc/letsencrypt/live/example.com/fullchain.pem;\n            ssl_certificate_key /etc/letsencrypt/live/example.com/privkey.pem;\n            ssl_trusted_certificate /etc/letsencrypt/live/example.com/fullchain.pem;\n        \n            include /etc/letsencrypt/options-ssl-nginx.conf;\n            ssl_dhparam /etc/letsencrypt/ssl-dhparams.pem;\n\n            root /var/www/example.com/public;\n            index index.html;\n            location / {\n                try_files $uri $uri/ =404;\n            }\n    }".to_string();

    let domain = Domain::try_from("example.com").unwrap();

    let http_block = HttpConfig::https_content(&domain);

    assert_eq!(http_block, expected);
}

#[test]
fn https_block_with_subdomain() {
    let expected = "server {\n            server_name www.example.com;\n            listen 443 ssl;\n        \n            ssl_certificate /etc/letsencrypt/live/www.example.com/fullchain.pem;\n            ssl_certificate_key /etc/letsencrypt/live/www.example.com/privkey.pem;\n            ssl_trusted_certificate /etc/letsencrypt/live/www.example.com/fullchain.pem;\n        \n            include /etc/letsencrypt/options-ssl-nginx.conf;\n            ssl_dhparam /etc/letsencrypt/ssl-dhparams.pem;\n\n            root /var/www/www.example.com/public;\n            index index.html;\n            location / {\n                try_files $uri $uri/ =404;\n            }\n    }".to_string();

    let domain = Domain::try_from("www.example.com").unwrap();

    let http_block = HttpConfig::https_content(&domain);

    assert_eq!(http_block, expected);
}

#[test]
fn http_redirect_block_no_subdomain() {
    let expected = "server {\n            listen 80;\n    \n            server_name example.com;\n    \n            return 301 https://example.com$request_uri;\n    }".to_string();

    let domain = Domain::try_from("example.com").unwrap();

    let redirect_block = HttpConfig::http_redirect_content(&domain);

    assert_eq!(redirect_block, expected);
}

#[test]
fn http_redirect_block_with_subdomain() {
    let expected = "server {\n            listen 80;\n    \n            server_name www.example.com;\n    \n            return 301 https://www.example.com$request_uri;\n    }".to_string();

    let domain = Domain::try_from("www.example.com").unwrap();

    let redirect_block = HttpConfig::http_redirect_content(&domain);

    assert_eq!(redirect_block, expected);
}

#[test]
fn expected_path() {
    let expected_path = "/var/www/example.com/public".to_string();

    let domain = Domain::new("example", "com", None).unwrap();

    let webroot = WebRoot::build_pathbuf(&domain);

    assert_eq!(expected_path, webroot);
}
