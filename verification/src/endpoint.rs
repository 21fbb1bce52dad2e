//! The local address on which the bundled server listens, and the texts that
//! are derived from it: the address probed for readiness, the URL shown in
//! the window, and the script that sends the window there.

use vstd::prelude::*;
use vstd::string::*;
use crate::text::{decimal, push_decimal};

verus! {

/// The port the bundled server is told to listen on.
pub const SERVER_PORT: u16 = 5173;

/// The host name the bundled server is told to bind to.
pub const LOOPBACK_HOST: &'static str = "127.0.0.1";

/// The label of the window that shows the server's page.
pub const MAIN_WINDOW: &'static str = "main";

/// `host:port`, the form in which a socket address is written.
pub open spec fn address_of(host: Seq<char>, port: nat) -> Seq<char> {
    host + ":"@ + decimal(port)
}

/// The plain-HTTP URL of the server at `host:port`.
pub open spec fn url_of(host: Seq<char>, port: nat) -> Seq<char> {
    "http://"@ + address_of(host, port)
}

/// The script that replaces the window's location with `url`.
pub open spec fn redirect_script_of(url: Seq<char>) -> Seq<char> {
    "window.location.replace('"@ + url + "');"@
}

/// Where the bundled server listens.
#[derive(Debug, Clone, PartialEq, Eq)]
pub struct Endpoint {
    pub host: String,
    pub port: u16,
}

/// What the host does to the window once the wait for the server is over.
#[derive(Debug, Clone, PartialEq, Eq)]
pub struct Navigation {
    /// The label of the window; if there is no such window, nothing is done.
    pub window: String,
    /// The script evaluated in that window.
    pub script: String,
}

impl Endpoint {
    /// The endpoint of a packaged build: port 5173 on the loopback interface.
    pub fn loopback() -> (endpoint: Endpoint)
        ensures
            endpoint.host@ == LOOPBACK_HOST@,
            endpoint.port == SERVER_PORT,
            endpoint.spec_address() == "127.0.0.1:5173"@,
            endpoint.spec_url() == "http://127.0.0.1:5173"@,
            endpoint.spec_redirect_script()
                == "window.location.replace('http://127.0.0.1:5173');"@,
    {
        proof {
            lemma_loopback_texts();
        }
        Endpoint { host: String::from_str(LOOPBACK_HOST), port: SERVER_PORT }
    }

    pub open spec fn spec_address(&self) -> Seq<char> {
        address_of(self.host@, self.port as nat)
    }

    pub open spec fn spec_url(&self) -> Seq<char> {
        url_of(self.host@, self.port as nat)
    }

    pub open spec fn spec_redirect_script(&self) -> Seq<char> {
        redirect_script_of(self.spec_url())
    }

    /// The socket address that is probed to learn whether the server is up.
    pub fn address(&self) -> (text: String)
        ensures
            text@ == self.spec_address(),
    {
        let mut text = String::from_str(self.host.as_str());
        text.append(":");
        push_decimal(&mut text, self.port);
        text
    }

    /// The URL the window is sent to once the wait for the server is over.
    pub fn url(&self) -> (text: String)
        ensures
            text@ == self.spec_url(),
    {
        let mut text = String::from_str("http://");
        text.append(self.host.as_str());
        text.append(":");
        push_decimal(&mut text, self.port);
        assert(text@ =~= self.spec_url());
        text
    }

    /// The script evaluated in the window to send it to [`Endpoint::url`].
    pub fn redirect_script(&self) -> (text: String)
        ensures
            text@ == self.spec_redirect_script(),
    {
        let mut text = String::from_str("window.location.replace('");
        let url = self.url();
        text.append(url.as_str());
        text.append("');");
        text
    }

    /// The navigation that ends a run: the main window is sent to
    /// [`Endpoint::url`].
    pub fn navigation(&self) -> (navigation: Navigation)
        ensures
            navigation.window@ == MAIN_WINDOW@,
            navigation.script@ == self.spec_redirect_script(),
    {
        Navigation { window: String::from_str(MAIN_WINDOW), script: self.redirect_script() }
    }
}

/// The texts of the packaged build's endpoint, written out.
pub proof fn lemma_loopback_texts()
    ensures
        decimal(SERVER_PORT as nat) == "5173"@,
        address_of(LOOPBACK_HOST@, SERVER_PORT as nat) == "127.0.0.1:5173"@,
        url_of(LOOPBACK_HOST@, SERVER_PORT as nat) == "http://127.0.0.1:5173"@,
        redirect_script_of(url_of(LOOPBACK_HOST@, SERVER_PORT as nat))
            == "window.location.replace('http://127.0.0.1:5173');"@,
{
    reveal_strlit("5173");
    reveal_strlit("127.0.0.1");
    reveal_strlit(":");
    reveal_strlit("http://");
    reveal_strlit("127.0.0.1:5173");
    reveal_strlit("http://127.0.0.1:5173");
    reveal_strlit("window.location.replace('");
    reveal_strlit("');");
    reveal_strlit("window.location.replace('http://127.0.0.1:5173');");
    reveal_with_fuel(decimal, 5);
    assert(decimal(5173) =~= "5173"@);
    assert(address_of(LOOPBACK_HOST@, 5173) =~= "127.0.0.1:5173"@);
    assert(url_of(LOOPBACK_HOST@, 5173) =~= "http://127.0.0.1:5173"@);
    assert(redirect_script_of(url_of(LOOPBACK_HOST@, 5173))
        =~= "window.location.replace('http://127.0.0.1:5173');"@);
}

} // verus!
