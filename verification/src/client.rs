//! The client's identity against the media server: its materialized
//! configuration and the URLs its requests go to.
//!
//! The HTTP calls themselves are the host program's business; what is
//! built here is everything about a request that can be pinned down
//! beforehand: the authority, the endpoint path and the encoded query.

use vstd::prelude::*;
use vstd::string::StringExecFns;

use crate::config::Config;
use crate::config::MaterializedConfig;
use crate::config::missing_field_names;
use crate::error::ConfigNotMaterializeable;

verus! {

/// The `application/x-www-form-urlencoded` serialization of the given
/// name/value pairs.
pub uninterp spec fn form_urlencoded_of(pairs: Seq<(Seq<char>, Seq<char>)>) -> Seq<char>;

/// Relies on form_urlencoded::Serializer of the url crate: appending each
/// pair in order and finishing yields the form-urlencoded serialization
/// of the pairs, determined by the pairs alone.
#[verifier::external_body]
fn encode_query_pairs(pairs: &Vec<(String, String)>) -> (r: String)
    ensures
        r@ == form_urlencoded_of(pairs.deep_view()),
{
    let mut serializer = url::form_urlencoded::Serializer::new(String::new());
    for (name, value) in pairs.iter() {
        serializer.append_pair(name, value);
    }
    serializer.finish()
}

/// The query string that only authenticates a call.
pub open spec fn auth_query_view(token: Seq<char>) -> Seq<char> {
    form_urlencoded_of(seq![("apikey"@, token)])
}

/// The query string of a title search: the term, then the token.
pub open spec fn search_query_view(term: Seq<char>, token: Seq<char>) -> Seq<char> {
    form_urlencoded_of(seq![("term"@, term), ("apikey"@, token)])
}

/// A client of the media server, built from a complete configuration.
#[derive(Debug)]
pub struct Client {
    pub config: MaterializedConfig,
}

impl Client {
    /// Builds a client, succeeding exactly when the configuration is
    /// complete and otherwise naming the missing fields.
    pub fn new(config: Config) -> (r: Result<Client, ConfigNotMaterializeable>)
        ensures
            r is Ok <==> (config.api_token is Some && config.hostname is Some
                && config.protocol is Some),
            r matches Ok(c) ==> Some(c.config.api_token) == config.api_token && Some(
                c.config.hostname,
            ) == config.hostname && Some(c.config.protocol) == config.protocol,
            r matches Err(e) ==> e.fields_view() == missing_field_names(config),
    {
        match MaterializedConfig::new_from_config(config) {
            Ok(config) => Ok(Client { config }),
            Err(e) => Err(e),
        }
    }

    /// The URL of a request: protocol, hostname, path and query composed
    /// the way the server expects them.
    pub fn url_for(&self, uri: &str, query_string: &str) -> (r: String)
        ensures
            r@ == self.config.protocol@ + "://"@ + self.config.hostname@ + "/"@ + uri@ + "?"@
                + query_string@,
    {
        let mut s = String::new();
        s.append(self.config.protocol.as_str());
        s.append("://");
        s.append(self.config.hostname.as_str());
        s.append("/");
        s.append(uri);
        s.append("?");
        s.append(query_string);
        s
    }

    /// The URL of an API request: as `url_for`, under the server's
    /// versioned API prefix.
    pub fn api_url_for(&self, uri: &str, query_string: &str) -> (r: String)
        ensures
            r@ == self.config.protocol@ + "://"@ + self.config.hostname@ + "/"@ + "api/v3/"@
                + uri@ + "?"@ + query_string@,
    {
        let mut prefixed = "api/v3/".to_owned();
        prefixed.append(uri);
        let r = self.url_for(prefixed.as_str(), query_string);
        proof {
            assert(r@ =~= self.config.protocol@ + "://"@ + self.config.hostname@ + "/"@
                + "api/v3/"@ + uri@ + "?"@ + query_string@);
        }
        r
    }

    /// The encoded query string that authenticates a plain API call.
    pub fn auth_query(&self) -> (r: String)
        ensures
            r@ == auth_query_view(self.config.api_token@),
    {
        let mut pairs: Vec<(String, String)> = Vec::new();
        pairs.push(("apikey".to_owned(), self.config.api_token.clone()));
        proof {
            assert(pairs.deep_view() =~= seq![("apikey"@, self.config.api_token@)]);
        }
        encode_query_pairs(&pairs)
    }

    /// The full URL of a title search for the given term.
    pub fn search_url(&self, term: &str) -> (r: String)
        ensures
            r@ == self.config.protocol@ + "://"@ + self.config.hostname@ + "/"@ + "api/v3/"@
                + "movie/lookup"@ + "?"@ + search_query_view(term@, self.config.api_token@),
    {
        let mut pairs: Vec<(String, String)> = Vec::new();
        pairs.push(("term".to_owned(), term.to_owned()));
        pairs.push(("apikey".to_owned(), self.config.api_token.clone()));
        proof {
            assert(pairs.deep_view() =~= seq![
                ("term"@, term@),
                ("apikey"@, self.config.api_token@),
            ]);
        }
        let query_string = encode_query_pairs(&pairs);
        self.api_url_for("movie/lookup", query_string.as_str())
    }
}

/// The decimal digit characters of a number, most significant first.
pub open spec fn decimal_digits(n: nat) -> Seq<char>
    decreases n,
{
    if n < 10 {
        seq![digit_char(n)]
    } else {
        decimal_digits(n / 10).push(digit_char(n % 10))
    }
}

/// The character of one decimal digit.
pub open spec fn digit_char(d: nat) -> char {
    if d == 0 {
        '0'
    } else if d == 1 {
        '1'
    } else if d == 2 {
        '2'
    } else if d == 3 {
        '3'
    } else if d == 4 {
        '4'
    } else if d == 5 {
        '5'
    } else if d == 6 {
        '6'
    } else if d == 7 {
        '7'
    } else if d == 8 {
        '8'
    } else {
        '9'
    }
}

/// The one-character text of a decimal digit.
fn digit_str(d: u32) -> (r: &'static str)
    requires
        d < 10,
    ensures
        r@ == seq![digit_char(d as nat)],
{
    match d {
        0 => {
            proof {
                reveal_strlit("0");
                assert("0"@ =~= seq![digit_char(d as nat)]);
            }
            "0"
        },
        1 => {
            proof {
                reveal_strlit("1");
                assert("1"@ =~= seq![digit_char(d as nat)]);
            }
            "1"
        },
        2 => {
            proof {
                reveal_strlit("2");
                assert("2"@ =~= seq![digit_char(d as nat)]);
            }
            "2"
        },
        3 => {
            proof {
                reveal_strlit("3");
                assert("3"@ =~= seq![digit_char(d as nat)]);
            }
            "3"
        },
        4 => {
            proof {
                reveal_strlit("4");
                assert("4"@ =~= seq![digit_char(d as nat)]);
            }
            "4"
        },
        5 => {
            proof {
                reveal_strlit("5");
                assert("5"@ =~= seq![digit_char(d as nat)]);
            }
            "5"
        },
        6 => {
            proof {
                reveal_strlit("6");
                assert("6"@ =~= seq![digit_char(d as nat)]);
            }
            "6"
        },
        7 => {
            proof {
                reveal_strlit("7");
                assert("7"@ =~= seq![digit_char(d as nat)]);
            }
            "7"
        },
        8 => {
            proof {
                reveal_strlit("8");
                assert("8"@ =~= seq![digit_char(d as nat)]);
            }
            "8"
        },
        _ => {
            proof {
                reveal_strlit("9");
                assert("9"@ =~= seq![digit_char(d as nat)]);
            }
            "9"
        },
    }
}

/// The decimal text of a number, as URLs carry identifiers.
pub fn u32_decimal(n: u32) -> (r: String)
    ensures
        r@ == decimal_digits(n as nat),
    decreases n,
{
    if n < 10 {
        digit_str(n).to_owned()
    } else {
        let mut s = u32_decimal(n / 10);
        s.append(digit_str(n % 10));
        proof {
            assert(s@ =~= decimal_digits(n as nat));
        }
        s
    }
}

/// The endpoint path of one movie: `movie/` followed by its decimal id.
pub fn movie_endpoint(id: u32) -> (r: String)
    ensures
        r@ == "movie/"@ + decimal_digits(id as nat),
{
    let mut s = "movie/".to_owned();
    s.append(u32_decimal(id).as_str());
    s
}

/// The process exit code a response maps to: server-side failures exit 1,
/// client-side failures 2, anything else 0.
pub fn exit_code(server_error: bool, client_error: bool) -> (c: u8)
    ensures
        server_error ==> c == 1,
        !server_error && client_error ==> c == 2,
        !server_error && !client_error ==> c == 0,
{
    if server_error {
        1
    } else if client_error {
        2
    } else {
        0
    }
}

} // verus!
