//! MCP client: configuration, protocol state, and the decisions a session
//! makes around each network exchange.
//!
//! The HTTP transport that actually carries a request is owned by the
//! session driver outside the library. Everything the client decides — which
//! id the next request gets, what a reply means, how the state changes — is
//! here, stated over the values that cross the wire.

use crate::json::json_text_of;
use crate::json::value_to_json_string;
use crate::mcp_types::McpPrompt;
use crate::mcp_types::McpResource;
use crate::mcp_types::McpResponse;
use crate::mcp_types::McpServerConfig;
use crate::mcp_types::McpServerState;
use crate::mcp_types::McpTool;
use crate::mcp_types::McpError;
use crate::mcp_types::ToolCallResult;
use crate::mcp_types::spec_disconnected;
use crate::mcp_types::spec_prompt_eq;
use vstd::prelude::*;
use vstd::string::StringExecFns;

verus! {

/// The decimal digit character for `d`.
pub open spec fn spec_digit(d: nat) -> char {
    if d == 0 {
        '0'
    } else if d == 1 {
        '1'
    } else if d == 2 {
        '2'
    } else if d == 3 {
        '3'
    } else if d == 4 {
        '4'
    } else if d == 5 {
        '5'
    } else if d == 6 {
        '6'
    } else if d == 7 {
        '7'
    } else if d == 8 {
        '8'
    } else {
        '9'
    }
}

/// The decimal digits of `n`, most significant first.
pub open spec fn spec_decimal(n: nat) -> Seq<char>
    decreases n,
{
    if n < 10 {
        seq![spec_digit(n)]
    } else {
        spec_decimal(n / 10) + seq![spec_digit(n % 10)]
    }
}

/// A decimal rendering is never empty, and has at least two digits from 10
/// up.
proof fn lemma_decimal_len(n: nat)
    ensures
        spec_decimal(n).len() >= 1,
        n < 10 ==> spec_decimal(n).len() == 1,
        n >= 10 ==> spec_decimal(n).len() >= 2,
    decreases n,
{
    if n >= 10 {
        lemma_decimal_len(n / 10);
    }
}

/// Each of the ten digits gets its own character.
proof fn lemma_digit_injective(a: nat, b: nat)
    requires
        a < 10,
        b < 10,
        spec_digit(a) == spec_digit(b),
    ensures
        a == b,
{
}

/// Distinct counter values render to distinct ids: the decimal form
/// determines the number, so two request ids can only collide once the
/// counter has wrapped all the way around.
pub proof fn lemma_decimal_injective(a: nat, b: nat)
    requires
        spec_decimal(a) == spec_decimal(b),
    ensures
        a == b,
    decreases a,
{
    lemma_decimal_len(a);
    lemma_decimal_len(b);
    if a < 10 && b < 10 {
        assert(seq![spec_digit(a)][0] == spec_digit(a));
        assert(seq![spec_digit(b)][0] == spec_digit(b));
        assert(spec_decimal(a)[0] == spec_decimal(b)[0]);
        lemma_digit_injective(a, b);
    } else if a < 10 || b < 10 {
        // One rendering has one digit, the other at least two.
        assert(false);
    } else {
        let sa = spec_decimal(a / 10);
        let sb = spec_decimal(b / 10);
        let da = spec_digit(a % 10);
        let db = spec_digit(b % 10);
        assert((sa + seq![da]).len() == sa.len() + 1);
        assert(sa.len() == sb.len());
        assert((sa + seq![da])[sa.len() as int] == da);
        assert((sb + seq![db])[sb.len() as int] == db);
        assert(da == db);
        lemma_digit_injective(a % 10, b % 10);
        assert(sa =~= sb) by {
            assert(forall|i: int|
                0 <= i < sa.len() ==> sa[i] == (sa + seq![da])[i] && sb[i] == (sb + seq![db])[i]);
        }
        lemma_decimal_injective(a / 10, b / 10);
        assert(a == (a / 10) * 10 + a % 10);
        assert(b == (b / 10) * 10 + b % 10);
    }
}

/// The one-character string for digit `d`.
fn digit_str(d: u64) -> (r: &'static str)
    requires
        d < 10,
    ensures
        r@ == seq![spec_digit(d as nat)],
{
    match d {
        0 => {
            proof {
                reveal_strlit("0");
                assert("0"@ =~= seq!['0']);
            }
            "0"
        },
        1 => {
            proof {
                reveal_strlit("1");
                assert("1"@ =~= seq!['1']);
            }
            "1"
        },
        2 => {
            proof {
                reveal_strlit("2");
                assert("2"@ =~= seq!['2']);
            }
            "2"
        },
        3 => {
            proof {
                reveal_strlit("3");
                assert("3"@ =~= seq!['3']);
            }
            "3"
        },
        4 => {
            proof {
                reveal_strlit("4");
                assert("4"@ =~= seq!['4']);
            }
            "4"
        },
        5 => {
            proof {
                reveal_strlit("5");
                assert("5"@ =~= seq!['5']);
            }
            "5"
        },
        6 => {
            proof {
                reveal_strlit("6");
                assert("6"@ =~= seq!['6']);
            }
            "6"
        },
        7 => {
            proof {
                reveal_strlit("7");
                assert("7"@ =~= seq!['7']);
            }
            "7"
        },
        8 => {
            proof {
                reveal_strlit("8");
                assert("8"@ =~= seq!['8']);
            }
            "8"
        },
        _ => {
            proof {
                reveal_strlit("9");
                assert("9"@ =~= seq!['9']);
            }
            "9"
        },
    }
}

/// Render `n` in decimal, one recursive step per digit.
fn u64_to_decimal(n: u64) -> (s: String)
    ensures
        s@ == spec_decimal(n as nat),
    decreases n,
{
    if n < 10 {
        digit_str(n).to_owned()
    } else {
        let mut s = u64_to_decimal(n / 10);
        s.append(digit_str(n % 10));
        s
    }
}

/// Hand out the current request id in decimal and advance the counter,
/// wrapping at the top of the range.
pub fn next_request_id(counter: &mut u64) -> (r: String)
    ensures
        r@ == spec_decimal(*old(counter) as nat),
        *old(counter) < u64::MAX ==> *final(counter) == *old(counter) + 1,
        *old(counter) == u64::MAX ==> *final(counter) == 0,
{
    let id = u64_to_decimal(*counter);
    if *counter == u64::MAX {
        *counter = 0;
    } else {
        *counter = *counter + 1;
    }
    id
}

/// MCP client for managing server connections.
pub struct McpClient {
    config: McpServerConfig,
    state: McpServerState,
}

impl McpClient {
    /// The client's configuration.
    pub closed spec fn config_view(&self) -> McpServerConfig {
        self.config
    }

    /// The client's protocol state.
    pub closed spec fn state_view(&self) -> McpServerState {
        self.state
    }

    /// Create a new MCP client, disconnected.
    pub fn new(config: McpServerConfig) -> (r: McpClient)
        ensures
            r.config_view() == config,
            spec_disconnected(r.state_view()),
    {
        McpClient { config, state: McpServerState::disconnected() }
    }

    /// The URL a connection attempt goes to, or the error when none is
    /// configured.
    pub fn connect_precheck(&self) -> (r: Result<String, String>)
        ensures
            self.config_view().url matches Some(u) ==> (r matches Ok(s) && s@ == u@),
            self.config_view().url is None ==> (r matches Err(e) && e@
                == "Server URL not configured"@),
    {
        match &self.config.url {
            Some(u) => Ok(u.clone()),
            None => Err("Server URL not configured".to_owned()),
        }
    }

    /// Digest the reply to the initialize request: a transport failure or an
    /// error reply leaves the client unchanged and reports it; anything else
    /// marks the client connected.
    pub fn connect_outcome(&mut self, outcome: Result<McpResponse, String>) -> (r: Result<
        (),
        String,
    >)
        ensures
            final(self).config_view() == old(self).config_view(),
            outcome matches Err(e) ==> (*final(self) == *old(self) && (r matches Err(m) && m@
                == "Connection failed: "@ + e@)),
            outcome matches Ok(resp) ==> (resp.error matches Some(err) ==> (*final(self)
                == *old(self) && (r matches Err(m) && m@ == "Server error: "@ + err.message@))),
            outcome matches Ok(resp) ==> (resp.error is None ==> (r is Ok
                && final(self).state_view() == (McpServerState {
                connected: true,
                ..old(self).state_view()
            }))),
    {
        match outcome {
            Err(e) => {
                let mut m = "Connection failed: ".to_owned();
                m.append(e.as_str());
                Err(m)
            },
            Ok(resp) => match resp.error {
                Some(err) => {
                    let mut m = "Server error: ".to_owned();
                    m.append(err.message.as_str());
                    Err(m)
                },
                None => {
                    self.state.connected = true;
                    Ok(())
                },
            },
        }
    }

    /// Record the tools the server reported.
    pub fn set_tools(&mut self, tools: Vec<McpTool>)
        ensures
            final(self).config_view() == old(self).config_view(),
            final(self).state_view() == (McpServerState { tools, ..old(self).state_view() }),
    {
        self.state.tools = tools;
    }

    /// Record the resources the server reported.
    pub fn set_resources(&mut self, resources: Vec<McpResource>)
        ensures
            final(self).config_view() == old(self).config_view(),
            final(self).state_view() == (McpServerState { resources, ..old(self).state_view() }),
    {
        self.state.resources = resources;
    }

    /// Record the prompts the server reported.
    pub fn set_prompts(&mut self, prompts: Vec<McpPrompt>)
        ensures
            final(self).config_view() == old(self).config_view(),
            final(self).state_view() == (McpServerState { prompts, ..old(self).state_view() }),
    {
        self.state.prompts = prompts;
    }

    /// Disconnect from the MCP server.
    pub fn disconnect(&mut self)
        ensures
            final(self).config_view() == old(self).config_view(),
            spec_disconnected(final(self).state_view()),
    {
        self.state = McpServerState::disconnected();
    }

    /// The error every request-shaped method reports when the client is not
    /// connected.
    pub fn check_connected(&self) -> (r: Result<(), String>)
        ensures
            self.state_view().connected ==> r is Ok,
            !self.state_view().connected ==> (r matches Err(e) && e@
                == "Not connected to server"@),
    {
        if self.state.connected {
            Ok(())
        } else {
            Err("Not connected to server".to_owned())
        }
    }

    /// List available tools.
    pub fn list_tools(&self) -> (r: Result<Vec<McpTool>, String>)
        ensures
            self.state_view().connected ==> (r matches Ok(ts) && ts@ == self.state_view().tools@),
            !self.state_view().connected ==> (r matches Err(e) && e@
                == "Not connected to server"@),
    {
        if !self.state.connected {
            return Err("Not connected to server".to_owned());
        }
        let ts = self.state.tools.clone();
        proof {
            assert(ts@ =~= self.state.tools@);
        }
        Ok(ts)
    }

    /// List available resources.
    pub fn list_resources(&self) -> (r: Result<Vec<McpResource>, String>)
        ensures
            self.state_view().connected ==> (r matches Ok(rs) && rs@ == self.state_view().resources@),
            !self.state_view().connected ==> (r matches Err(e) && e@
                == "Not connected to server"@),
    {
        if !self.state.connected {
            return Err("Not connected to server".to_owned());
        }
        let rs = self.state.resources.clone();
        proof {
            assert(rs@ =~= self.state.resources@);
        }
        Ok(rs)
    }

    /// List available prompts.
    pub fn list_prompts(&self) -> (r: Result<Vec<McpPrompt>, String>)
        ensures
            self.state_view().connected ==> (r matches Ok(ps) && ps@.len()
                == self.state_view().prompts@.len() && (forall|i: int|
                0 <= i < ps@.len() ==> spec_prompt_eq(
                    #[trigger] ps@[i],
                    self.state_view().prompts@[i],
                ))),
            !self.state_view().connected ==> (r matches Err(e) && e@
                == "Not connected to server"@),
    {
        if !self.state.connected {
            return Err("Not connected to server".to_owned());
        }
        Ok(self.state.prompts.clone())
    }

    /// Get server configuration.
    pub fn config(&self) -> (r: &McpServerConfig)
        ensures
            *r == self.config_view(),
    {
        &self.config
    }

    /// Get server state.
    pub fn state(&self) -> (r: &McpServerState)
        ensures
            *r == self.state_view(),
    {
        &self.state
    }

    /// Check if connected.
    pub fn is_connected(&self) -> (r: bool)
        ensures
            r == self.state_view().connected,
    {
        self.state.connected
    }

    /// Digest the reply to a tool call: a transport failure or an error
    /// reply yields an unsuccessful result carrying the message; a success
    /// carries the JSON text of the reply's result, or the empty string when
    /// the reply holds none.
    pub fn tool_call_outcome(outcome: Result<McpResponse, String>) -> (r: ToolCallResult)
        ensures
            outcome matches Err(e) ==> (!r.success && r.result@ == Seq::<char>::empty() && (
            r.error matches Some(m) && m@ == e@)),
            outcome matches Ok(resp) ==> (resp.error matches Some(err) ==> (!r.success
                && r.result@ == Seq::<char>::empty() && (r.error matches Some(m) && m@
                == err.message@))),
            outcome matches Ok(resp) ==> (resp.error is None ==> (resp.result matches Some(v)
                ==> (r.success && r.result@ == json_text_of(v) && r.error is None))),
            outcome matches Ok(resp) ==> ((resp.error is None && resp.result is None) ==> (
            r.success && r.result@ == Seq::<char>::empty() && r.error is None)),
    {
        match outcome {
            Err(e) => ToolCallResult { success: false, result: String::new(), error: Some(e) },
            Ok(resp) => match resp.error {
                Some(err) => ToolCallResult {
                    success: false,
                    result: String::new(),
                    error: Some(err.message),
                },
                None => match resp.result {
                    Some(v) => ToolCallResult {
                        success: true,
                        result: value_to_json_string(&v),
                        error: None,
                    },
                    None => ToolCallResult { success: true, result: String::new(), error: None },
                },
            },
        }
    }

    /// Digest the reply to a prompt request: an error reply is reported, a
    /// missing result is reported, otherwise the JSON text of the result is
    /// returned.
    pub fn get_prompt_outcome(outcome: Result<McpResponse, String>) -> (r: Result<String, String>)
        ensures
            outcome matches Err(e) ==> (r matches Err(m) && m@ == e@),
            outcome matches Ok(resp) ==> (resp.error matches Some(err) ==> (r matches Err(m) && m@
                == err.message@)),
            outcome matches Ok(resp) ==> (resp.error is None ==> (resp.result matches Some(v)
                ==> (r matches Ok(s) && s@ == json_text_of(v)))),
            outcome matches Ok(resp) ==> ((resp.error is None && resp.result is None) ==> (
            r matches Err(m) && m@ == "No result in response"@)),
    {
        match outcome {
            Err(e) => Err(e),
            Ok(resp) => match resp.error {
                Some(err) => Err(err.message),
                None => match resp.result {
                    Some(v) => Ok(value_to_json_string(&v)),
                    None => Err("No result in response".to_owned()),
                },
            },
        }
    }

    /// Digest the reply to a resource read, after the session driver has
    /// pulled the `contents` field out of the reply: an error reply is
    /// reported first, then missing content.
    pub fn read_resource_outcome(error: Option<McpError>, contents_json: Option<String>) -> (r:
        Result<String, String>)
        ensures
            error matches Some(err) ==> (r matches Err(m) && m@ == err.message@),
            error is None ==> (contents_json matches Some(c) ==> (r matches Ok(s) && s@ == c@)),
            (error is None && contents_json is None) ==> (r matches Err(m) && m@
                == "No content in response"@),
    {
        match error {
            Some(err) => Err(err.message),
            None => match contents_json {
                Some(c) => Ok(c),
                None => Err("No content in response".to_owned()),
            },
        }
    }
}

} // verus!
