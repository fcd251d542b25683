use vstd::prelude::*;
use vstd::string::StringExecFns;

verus! {

/// Where the backend listens, and the path that asks it to shut down.
#[derive(Debug)]
pub struct BackendEndpoint {
    pub host: String,
    pub port: u16,
    pub shutdown_path: String,
}

/// Why an endpoint configuration was refused.
#[derive(Clone, Copy, Debug, PartialEq, Eq, Structural)]
pub enum EndpointError {
    EmptyHost,
    /// Port 0 names no listening socket.
    InvalidPort,
}

/// The decimal digit `d`, for `d < 10`.
pub open spec fn digit_char(d: nat) -> char {
    if d == 0 {
        '0'
    } else if d == 1 {
        '1'
    } else if d == 2 {
        '2'
    } else if d == 3 {
        '3'
    } else if d == 4 {
        '4'
    } else if d == 5 {
        '5'
    } else if d == 6 {
        '6'
    } else if d == 7 {
        '7'
    } else if d == 8 {
        '8'
    } else {
        '9'
    }
}

/// `n` written in decimal, without leading zeros.
pub open spec fn decimal(n: nat) -> Seq<char>
    decreases n,
{
    if n < 10 {
        seq![digit_char(n)]
    } else {
        decimal(n / 10) + seq![digit_char(n % 10)]
    }
}

/// `host:port`, the address that readiness probes connect to.
pub open spec fn address_text(host: Seq<char>, port: u16) -> Seq<char> {
    host + seq![':'] + decimal(port as nat)
}

/// `http://host:port/path`, the URL of the shutdown request.
pub open spec fn url_text(host: Seq<char>, port: u16, path: Seq<char>) -> Seq<char> {
    seq!['h', 't', 't', 'p', ':', '/', '/'] + address_text(host, port) + path
}

pub open spec fn valid_endpoint(host: Seq<char>, port: u16) -> bool {
    host.len() > 0 && port != 0
}

fn digit_str(d: u16) -> (r: &'static str)
    requires
        d < 10,
    ensures
        r@ == seq![digit_char(d as nat)],
{
    proof {
        reveal_strlit("0");
        reveal_strlit("1");
        reveal_strlit("2");
        reveal_strlit("3");
        reveal_strlit("4");
        reveal_strlit("5");
        reveal_strlit("6");
        reveal_strlit("7");
        reveal_strlit("8");
        reveal_strlit("9");
    }
    if d == 0 {
        "0"
    } else if d == 1 {
        "1"
    } else if d == 2 {
        "2"
    } else if d == 3 {
        "3"
    } else if d == 4 {
        "4"
    } else if d == 5 {
        "5"
    } else if d == 6 {
        "6"
    } else if d == 7 {
        "7"
    } else if d == 8 {
        "8"
    } else {
        "9"
    }
}

fn push_decimal(out: &mut String, n: u16)
    ensures
        final(out)@ == old(out)@ + decimal(n as nat),
    decreases n,
{
    if n >= 10 {
        push_decimal(out, n / 10);
    }
    out.append(digit_str(n % 10));
    proof {
        assert(old(out)@ + decimal(n as nat) =~= final(out)@) by {
            if n >= 10 {
                assert(decimal(n as nat) == decimal((n / 10) as nat) + seq![digit_char((n % 10) as nat)]);
            }
        }
    }
}

impl BackendEndpoint {
    /// Checks and builds an endpoint: the host must not be empty and the
    /// port must not be 0.
    pub fn new(host: String, port: u16, shutdown_path: String) -> (r: Result<
        BackendEndpoint,
        EndpointError,
    >)
        ensures
            host@.len() == 0 ==> r == Err::<BackendEndpoint, EndpointError>(EndpointError::EmptyHost),
            host@.len() > 0 && port == 0 ==> r == Err::<BackendEndpoint, EndpointError>(
                EndpointError::InvalidPort,
            ),
            valid_endpoint(host@, port) <==> r is Ok,
            r matches Ok(e) ==> e.host@ == host@ && e.port == port && e.shutdown_path@
                == shutdown_path@,
    {
        if host.as_str().is_empty() {
            return Err(EndpointError::EmptyHost);
        }
        if port == 0 {
            return Err(EndpointError::InvalidPort);
        }
        Ok(BackendEndpoint { host, port, shutdown_path })
    }

    /// The backend this shell ships with: loopback, port 5000, `/shutdown`.
    pub fn standard() -> (r: BackendEndpoint)
        ensures
            r.host@ == seq!['1', '2', '7', '.', '0', '.', '0', '.', '1'],
            r.port == 5000,
            r.shutdown_path@ == seq!['/', 's', 'h', 'u', 't', 'd', 'o', 'w', 'n'],
            valid_endpoint(r.host@, r.port),
    {
        proof {
            reveal_strlit("127.0.0.1");
            reveal_strlit("/shutdown");
        }
        BackendEndpoint {
            host: String::from_str("127.0.0.1"),
            port: 5000,
            shutdown_path: String::from_str("/shutdown"),
        }
    }

    /// The `host:port` address that readiness probes connect to.
    pub fn probe_address(&self) -> (r: String)
        ensures
            r@ == address_text(self.host@, self.port),
    {
        let mut out = self.host.clone();
        proof {
            reveal_strlit(":");
        }
        out.append(":");
        push_decimal(&mut out, self.port);
        proof {
            assert(out@ =~= address_text(self.host@, self.port));
        }
        out
    }

    /// The URL that the shutdown request is sent to.
    pub fn shutdown_url(&self) -> (r: String)
        ensures
            r@ == url_text(self.host@, self.port, self.shutdown_path@),
    {
        proof {
            reveal_strlit("http://");
        }
        let mut out = String::from_str("http://");
        let address = self.probe_address();
        out.append(address.as_str());
        out.append(self.shutdown_path.as_str());
        proof {
            assert(out@ =~= url_text(self.host@, self.port, self.shutdown_path@));
        }
        out
    }
}

} // verus!
