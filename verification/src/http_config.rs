//! The three nginx server blocks that a provisioning run writes: the
//! temporary ACME well-known block, the permanent HTTP-to-HTTPS
//! redirect, and the HTTPS content block.
//!
//! Each block's text is pinned down exactly by a spec function; the
//! pieces are cut around the `server_name` line so that proofs about
//! the declaration scan can name that line directly.

use vstd::prelude::*;
use vstd::string::StringExecFns;

use crate::domain::{Domain, DomainView};
use crate::webroot::{webroot_path, WebRoot};

verus! {

/// The server-name directive without its terminating semicolon.
pub open spec fn server_name_directive(d: DomainView) -> Seq<char> {
    "server_name "@ + d.canonical()
}

/// The full `server_name` line of a block: indentation, directive,
/// semicolon.
pub open spec fn server_name_line(d: DomainView) -> Seq<char> {
    "            "@ + "server_name "@ + d.canonical() + ";"@
}

/// The opening shared by the two port-80 blocks.
pub open spec fn listen_80_lead() -> Seq<char> {
    "server {\n            listen 80;\n    "@
}

/// The ACME well-known block: binds port 80 and serves the challenge
/// directory out of the domain's web root.
pub open spec fn nginx_well_known(d: DomainView) -> Seq<char> {
    listen_80_lead() + "\n"@ + server_name_line(d) + "\n"@
        + "    \n            location ^~ /.well-known/acme-challenge/ {\n                root "@
        + webroot_path(d)
        + ";\n                allow all;\n                default_type \"text/plain\";\n            }\n    }"@
}

/// The permanent redirect block: binds port 80 and redirects every
/// request to the HTTPS form of the same canonical domain.
pub open spec fn nginx_redirect(d: DomainView) -> Seq<char> {
    listen_80_lead() + "\n"@ + server_name_line(d) + "\n"@
        + "    \n            return 301 https://"@ + d.canonical() + "$request_uri;\n    }"@
}

/// The HTTPS content block: binds the TLS port, references the
/// certificate material for the canonical domain, and serves the web
/// root.
pub open spec fn nginx_https(d: DomainView) -> Seq<char> {
    "server {"@ + "\n"@ + server_name_line(d) + "\n"@
        + "            listen 443 ssl;\n        \n            ssl_certificate /etc/letsencrypt/live/"@
        + d.canonical() + "/fullchain.pem;\n            ssl_certificate_key /etc/letsencrypt/live/"@
        + d.canonical()
        + "/privkey.pem;\n            ssl_trusted_certificate /etc/letsencrypt/live/"@
        + d.canonical()
        + "/fullchain.pem;\n        \n            include /etc/letsencrypt/options-ssl-nginx.conf;\n            ssl_dhparam /etc/letsencrypt/ssl-dhparams.pem;\n\n            "@
        + "root "@ + webroot_path(d)
        + ";\n            index index.html;\n            location / {\n                try_files $uri $uri/ =404;\n            }\n    }"@
}

pub struct HttpConfig;

impl HttpConfig {
    /// The rendered directive, `server_name <canonical-domain>`.
    pub(crate) fn server_name(domain: &Domain) -> (r: String)
        ensures
            r@ == server_name_directive(domain@),
    {
        let mut r = String::from_str("server_name ");
        r.append(domain.to_string().as_str());
        r
    }

    /// Appends the indented, semicolon-terminated `server_name` line.
    fn append_server_name_line(r: &mut String, domain: &Domain)
        ensures
            final(r)@ == old(r)@ + server_name_line(domain@),
    {
        r.append("            ");
        r.append("server_name ");
        r.append(domain.to_string().as_str());
        r.append(";");
    }

    pub fn http_well_known(domain: &Domain) -> (r: String)
        ensures
            r@ == nginx_well_known(domain@),
    {
        let mut r = String::from_str("server {\n            listen 80;\n    ");
        r.append("\n");
        Self::append_server_name_line(&mut r, domain);
        r.append("\n");
        r.append("    \n            location ^~ /.well-known/acme-challenge/ {\n                root ");
        r.append(WebRoot::build_path_string(domain).as_str());
        r.append(";\n                allow all;\n                default_type \"text/plain\";\n            }\n    }");
        r
    }

    pub fn http_redirect_content(domain: &Domain) -> (r: String)
        ensures
            r@ == nginx_redirect(domain@),
    {
        let mut r = String::from_str("server {\n            listen 80;\n    ");
        r.append("\n");
        Self::append_server_name_line(&mut r, domain);
        r.append("\n");
        r.append("    \n            return 301 https://");
        r.append(domain.to_string().as_str());
        r.append("$request_uri;\n    }");
        r
    }

    pub fn https_content(domain: &Domain) -> (r: String)
        ensures
            r@ == nginx_https(domain@),
    {
        let canonical = domain.to_string();
        let mut r = String::from_str("server {");
        r.append("\n");
        Self::append_server_name_line(&mut r, domain);
        r.append("\n");
        r.append("            listen 443 ssl;\n        \n            ssl_certificate /etc/letsencrypt/live/");
        r.append(canonical.as_str());
        r.append("/fullchain.pem;\n            ssl_certificate_key /etc/letsencrypt/live/");
        r.append(canonical.as_str());
        r.append("/privkey.pem;\n            ssl_trusted_certificate /etc/letsencrypt/live/");
        r.append(canonical.as_str());
        r.append("/fullchain.pem;\n        \n            include /etc/letsencrypt/options-ssl-nginx.conf;\n            ssl_dhparam /etc/letsencrypt/ssl-dhparams.pem;\n\n            ");
        r.append("root ");
        r.append(WebRoot::build_path_string(domain).as_str());
        r.append(";\n            index index.html;\n            location / {\n                try_files $uri $uri/ =404;\n            }\n    }");
        r
    }
}

} // verus!
