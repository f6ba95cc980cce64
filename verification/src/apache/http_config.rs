//! The three Apache virtual-host blocks that a provisioning run
//! writes, pinned down exactly by spec functions.  The pieces are cut
//! around the `ServerName` line so that proofs about the declaration
//! scan can name that line directly.

use vstd::prelude::*;
use vstd::string::StringExecFns;

use crate::domain::{Domain, DomainView};

verus! {

/// The full `ServerName` line of a block: indentation and directive.
pub open spec fn apache_server_name_line(d: DomainView) -> Seq<char> {
    "        "@ + "ServerName "@ + d.canonical()
}

/// The ACME well-known block: binds port 80 and serves the shared
/// challenge directory.
pub open spec fn apache_well_known(d: DomainView) -> Seq<char> {
    "\n    <VirtualHost *:80>\n        ServerAdmin webmaster@localhost"@ + "\n"@
        + apache_server_name_line(d) + "\n"@
        + "        DocumentRoot /var/www/.well-known/challenge\n        ErrorLog ${APACHE_LOG_DIR}/error.log\n        CustomLog ${APACHE_LOG_DIR}/access.log combined\n    </VirtualHost>"@
}

/// The permanent redirect block: binds port 80 and redirects to the
/// HTTPS form of the same canonical domain.
pub open spec fn apache_redirect(d: DomainView) -> Seq<char> {
    "\n    <VirtualHost *:80>"@ + "\n"@ + apache_server_name_line(d) + "\n"@
        + "\n        Redirect permanent / https://"@ + d.canonical() + "/\n    </VirtualHost>"@
}

/// The HTTPS content block: binds the TLS port and references the
/// certificate material for the canonical domain.
pub open spec fn apache_https(d: DomainView) -> Seq<char> {
    "\n    <VirtualHost *:443>"@ + "\n"@ + apache_server_name_line(d) + "\n"@
        + "    \n        Protocols h2 http/1.1\n    \n        SSLCertificateFile /etc/letsencrypt/live/"@
        + d.canonical() + "/fullchain.pem\n        SSLCertificateKeyFile /etc/letsencrypt/live/"@
        + d.canonical()
        + "/privkey.pem\n    \n        # Other Apache Configuration\n    \n    </VirtualHost>"@
}

pub struct HttpConfig;

impl HttpConfig {
    /// Appends the indented `ServerName` line.
    fn append_server_name_line(r: &mut String, domain: &Domain)
        ensures
            final(r)@ == old(r)@ + apache_server_name_line(domain@),
    {
        r.append("        ");
        r.append("ServerName ");
        r.append(domain.to_string().as_str());
    }

    pub fn http_well_known(domain: &Domain) -> (r: String)
        ensures
            r@ == apache_well_known(domain@),
    {
        let mut r = String::from_str(
            "\n    <VirtualHost *:80>\n        ServerAdmin webmaster@localhost",
        );
        r.append("\n");
        Self::append_server_name_line(&mut r, domain);
        r.append("\n");
        r.append("        DocumentRoot /var/www/.well-known/challenge\n        ErrorLog ${APACHE_LOG_DIR}/error.log\n        CustomLog ${APACHE_LOG_DIR}/access.log combined\n    </VirtualHost>");
        r
    }

    pub fn http_redirect(domain: &Domain) -> (r: String)
        ensures
            r@ == apache_redirect(domain@),
    {
        let mut r = String::from_str("\n    <VirtualHost *:80>");
        r.append("\n");
        Self::append_server_name_line(&mut r, domain);
        r.append("\n");
        r.append("\n        Redirect permanent / https://");
        r.append(domain.to_string().as_str());
        r.append("/\n    </VirtualHost>");
        r
    }

    pub fn https_content(domain: &Domain) -> (r: String)
        ensures
            r@ == apache_https(domain@),
    {
        let canonical = domain.to_string();
        let mut r = String::from_str("\n    <VirtualHost *:443>");
        r.append("\n");
        Self::append_server_name_line(&mut r, domain);
        r.append("\n");
        r.append("    \n        Protocols h2 http/1.1\n    \n        SSLCertificateFile /etc/letsencrypt/live/");
        r.append(canonical.as_str());
        r.append("/fullchain.pem\n        SSLCertificateKeyFile /etc/letsencrypt/live/");
        r.append(canonical.as_str());
        r.append("/privkey.pem\n    \n        # Other Apache Configuration\n    \n    </VirtualHost>");
        r
    }
}

} // verus!
