//! Where the policy decision point is reached.
use vstd::prelude::*;
use vstd::string::StringExecFns;

verus! {

/// The endpoint of the policy decision point.
#[derive(Debug, Clone)]
pub struct AzEndpoint {
    pub schema: String,
    pub port: u16,
    pub host: String,
}

/// The client configuration; without an endpoint no call can be made.
#[derive(Debug, Clone)]
pub struct AzConfig {
    pub endpoint: Option<AzEndpoint>,
}

/// The decimal digit character for `d`.
pub open spec fn digit(d: nat) -> char {
    if d == 0 {
        '0'
    } else if d == 1 {
        '1'
    } else if d == 2 {
        '2'
    } else if d == 3 {
        '3'
    } else if d == 4 {
        '4'
    } else if d == 5 {
        '5'
    } else if d == 6 {
        '6'
    } else if d == 7 {
        '7'
    } else if d == 8 {
        '8'
    } else {
        '9'
    }
}

/// The decimal numeral of `n`, without leading zeros.
pub open spec fn decimal(n: nat) -> Seq<char>
    decreases n,
{
    if n < 10 {
        seq![digit(n)]
    } else {
        decimal(n / 10).push(digit(n % 10))
    }
}

/// The connection URL of an endpoint: `schema://host:port`.
pub open spec fn endpoint_url(e: AzEndpoint) -> Seq<char> {
    e.schema@ + "://"@ + e.host@ + ":"@ + decimal(e.port as nat)
}

fn digit_str(d: u16) -> (r: &'static str)
    requires
        d < 10,
    ensures
        r@ == seq![digit(d as nat)],
{
    proof {
        reveal_strlit("0");
        reveal_strlit("1");
        reveal_strlit("2");
        reveal_strlit("3");
        reveal_strlit("4");
        reveal_strlit("5");
        reveal_strlit("6");
        reveal_strlit("7");
        reveal_strlit("8");
        reveal_strlit("9");
    }
    if d == 0 {
        "0"
    } else if d == 1 {
        "1"
    } else if d == 2 {
        "2"
    } else if d == 3 {
        "3"
    } else if d == 4 {
        "4"
    } else if d == 5 {
        "5"
    } else if d == 6 {
        "6"
    } else if d == 7 {
        "7"
    } else if d == 8 {
        "8"
    } else {
        "9"
    }
}

fn append_decimal(s: &mut String, n: u16)
    ensures
        final(s)@ == old(s)@ + decimal(n as nat),
    decreases n,
{
    if n >= 10 {
        append_decimal(s, n / 10);
    }
    s.append(digit_str(n % 10));
    assert(final(s)@ =~= old(s)@ + decimal(n as nat));
}

impl AzEndpoint {
    pub fn new(schema: String, port: u16, host: String) -> (r: AzEndpoint)
        requires
            schema@.len() > 0,
            host@.len() > 0,
        ensures
            r.schema == schema,
            r.port == port,
            r.host == host,
    {
        AzEndpoint { schema, port, host }
    }

    /// The connection URL: `schema://host:port`.
    pub fn url(&self) -> (r: String)
        ensures
            r@ == endpoint_url(*self),
    {
        let mut url = self.schema.clone();
        url.append("://");
        url.append(self.host.as_str());
        url.append(":");
        append_decimal(&mut url, self.port);
        url
    }
}

impl AzConfig {
    pub fn new() -> (r: AzConfig)
        ensures
            r.endpoint is None,
    {
        AzConfig { endpoint: None }
    }

    pub fn with_endpoint(self, endpoint: Option<AzEndpoint>) -> (r: AzConfig)
        ensures
            r.endpoint == endpoint,
    {
        let mut c = self;
        c.endpoint = endpoint;
        c
    }
}

impl Default for AzConfig {
    fn default() -> (r: AzConfig)
        ensures
            r.endpoint is None,
    {
        AzConfig::new()
    }
}

} // verus!
