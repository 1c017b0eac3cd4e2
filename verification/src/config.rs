//! Configuration of the service: the listen port, the listen stack mode and
//! the ordered list of services to probe, decoded from kdl text.
//!
//! The file is a flat key/value document. `listen_port` takes one integer
//! argument (absent: 8080; the port keeps the integer's low sixteen bits, as
//! a plain `as u16` narrowing would). `listen_stack` takes one of the strings
//! `"v4"`, `"v6"` or `"both"` (absent: both). `services` lists one string
//! argument per service; their order is the display order of the status
//! report. A value of the wrong kind rejects the whole configuration: a bad
//! configuration must stop startup, never half-start it.
//!
//! kdl parsing is deterministic, so what the parser and its accessors hand
//! back is a function of the text alone. Those results carry names here
//! (`kdl_parses`, `int_arg_of`, `string_arg_of`, `string_args_of`), the
//! trusted layer states its results through them, and `from_kdl_text`'s
//! contract pins the decoded configuration for every text in their terms.

use vstd::prelude::*;

verus! {

/// Which address families the server listens on.
#[derive(Clone, Copy, PartialEq, Eq, Structural, Debug)]
pub enum ListenStack {
    V4,
    V6,
    Both,
}

/// The settings the service runs with, fixed at startup.
#[derive(Debug, Clone)]
pub struct Config {
    pub listen_port: u16,
    pub listen_stack: ListenStack,
    pub services: Vec<String>,
}

/// Why a configuration was rejected. Any of these is fatal at startup.
#[derive(Debug)]
pub enum ConfigError {
    /// The text is not well-formed kdl; the payload is the parser's message.
    Syntax(String),
    /// `listen_port` has an argument that is not an integer.
    PortNotInteger,
    /// `listen_stack` has an argument that is not one of the known strings.
    StackNotRecognized,
    /// `services` has an argument that is not a string.
    ServiceNotString,
}

#[verifier::external_type_specification]
#[verifier::external_body]
pub struct ExKdlDocument(kdl::KdlDocument);

/// Whether this text parses as a kdl document. Parsing is a function of the
/// text alone.
pub uninterp spec fn kdl_parses(text: Seq<char>) -> bool;

/// The first argument of the first node with this name in the document the
/// text parses to, decoded as an integer: the outer layer says whether such
/// a node (with a first argument) is there, the inner whether that argument
/// is one of kdl's integer kinds.
pub uninterp spec fn int_arg_of(text: Seq<char>, name: Seq<char>) -> Option<Option<i64>>;

/// As `int_arg_of`, with the argument decoded as a string.
pub uninterp spec fn string_arg_of(text: Seq<char>, name: Seq<char>) -> Option<Option<Seq<char>>>;

/// All arguments of the first node with this name in the document the text
/// parses to, in node order, each decoded as a string; empty without such a
/// node.
pub uninterp spec fn string_args_of(text: Seq<char>, name: Seq<char>) -> Seq<Option<Seq<char>>>;

/// The same integer read as a function of the document value itself: what
/// `get_arg` plus `as_i64` hand back. The parse wrapper equates these
/// document-level reads with the text-level names above.
pub uninterp spec fn doc_int_arg(doc: kdl::KdlDocument, name: Seq<char>) -> Option<Option<i64>>;

/// As `doc_int_arg`, for `get_arg` plus `as_string`.
pub uninterp spec fn doc_string_arg(doc: kdl::KdlDocument, name: Seq<char>) -> Option<
    Option<Seq<char>>,
>;

/// As `doc_int_arg`, for `get_args` with `as_string` on each argument.
pub uninterp spec fn doc_string_args(doc: kdl::KdlDocument, name: Seq<char>) -> Seq<
    Option<Seq<char>>,
>;

/// The character-level view of a maybe-present, maybe-string argument.
pub open spec fn opt_string_view(a: Option<Option<String>>) -> Option<Option<Seq<char>>> {
    match a {
        Option::None => Option::None,
        Option::Some(Option::None) => Option::Some(Option::None),
        Option::Some(Option::Some(s)) => Option::Some(Option::Some(s@)),
    }
}

/// The character-level view of a list of maybe-string arguments.
pub open spec fn string_opts_view(args: Seq<Option<String>>) -> Seq<Option<Seq<char>>> {
    args.map_values(
        |a: Option<String>|
            match a {
                Option::None => Option::None,
                Option::Some(s) => Option::Some(s@),
            },
    )
}

/// Relies on kdl's `FromStr` for `KdlDocument`. Parsing is deterministic in
/// the text, so success is exactly `kdl_parses(text)`, and every later read
/// of the parsed document is a function of the text — the three quantified
/// clauses hand the document-level names over to the text-level ones. A
/// parse failure travels on as the parser's rendered message.
#[verifier::external_body]
fn parse_kdl(text: &str) -> (r: Result<kdl::KdlDocument, String>)
    ensures
        r is Ok <==> kdl_parses(text@),
        r is Ok ==> forall|n: Seq<char>| #[trigger] doc_int_arg(r->Ok_0, n) == int_arg_of(
            text@,
            n,
        ),
        r is Ok ==> forall|n: Seq<char>| #[trigger] doc_string_arg(r->Ok_0, n) == string_arg_of(
            text@,
            n,
        ),
        r is Ok ==> forall|n: Seq<char>| #[trigger] doc_string_args(r->Ok_0, n) == string_args_of(
            text@,
            n,
        ),
{
    match text.parse::<kdl::KdlDocument>() {
        Ok(d) => Ok(d),
        Err(e) => Err(format!("{}", e)),
    }
}

/// Relies on `kdl::KdlDocument::get_arg`, with `kdl::KdlValue::as_i64` as
/// the per-item decode: the first argument of the first node with this
/// name, as an integer when it is one. A pure read of the document.
#[verifier::external_body]
fn kdl_int_arg(doc: &kdl::KdlDocument, name: &str) -> (r: Option<Option<i64>>)
    ensures
        r == doc_int_arg(*doc, name@),
{
    doc.get_arg(name).map(|v| v.as_i64())
}

/// Relies on `kdl::KdlDocument::get_arg`, with `kdl::KdlValue::as_string`
/// as the per-item decode: the first argument of the first node with this
/// name, as a string when it is one. A pure read of the document.
#[verifier::external_body]
fn kdl_string_arg(doc: &kdl::KdlDocument, name: &str) -> (r: Option<Option<String>>)
    ensures
        opt_string_view(r) == doc_string_arg(*doc, name@),
{
    doc.get_arg(name).map(|v| v.as_string().map(str::to_owned))
}

/// Relies on `kdl::KdlDocument::get_args`, with `kdl::KdlValue::as_string`
/// as the per-item decode: all arguments of the first node with this name,
/// in node order. A pure read of the document.
#[verifier::external_body]
fn kdl_string_args(doc: &kdl::KdlDocument, name: &str) -> (r: Vec<Option<String>>)
    ensures
        string_opts_view(r@) == doc_string_args(*doc, name@),
{
    doc.get_args(name).into_iter().map(|v| v.as_string().map(str::to_owned)).collect()
}

/// The port a decoded `listen_port` argument yields: 8080 when the node is
/// absent, else the low sixteen bits of the integer.
pub open spec fn port_of(port_arg: Option<Option<i64>>) -> u16 {
    match port_arg {
        Option::None => 8080u16,
        Option::Some(Option::None) => 8080u16,
        Option::Some(Option::Some(v)) => (v & 0xffff) as u16,
    }
}

/// The mode a decoded `listen_stack` argument yields; `None` when the
/// argument is missing where the node is present, or not a known word.
pub open spec fn stack_of(stack_arg: Option<Option<Seq<char>>>) -> Option<ListenStack> {
    match stack_arg {
        Option::None => Option::Some(ListenStack::Both),
        Option::Some(Option::None) => Option::None,
        Option::Some(Option::Some(s)) => if s == "v4"@ {
            Option::Some(ListenStack::V4)
        } else if s == "v6"@ {
            Option::Some(ListenStack::V6)
        } else if s == "both"@ {
            Option::Some(ListenStack::Both)
        } else {
            Option::None
        },
    }
}

/// Every `services` argument decoded to a string.
pub open spec fn all_strings(args: Seq<Option<Seq<char>>>) -> bool {
    forall|i: int| 0 <= i < args.len() ==> args[i] is Some
}

/// The whole decoding rule, from the text to the result, over the named kdl
/// reads: which error comes first when an argument has the wrong kind, and
/// which fields a well-typed text yields.
pub open spec fn decodes_to(text: Seq<char>, r: Result<Config, ConfigError>) -> bool {
    let port_arg = int_arg_of(text, "listen_port"@);
    let stack_arg = string_arg_of(text, "listen_stack"@);
    let svc_args = string_args_of(text, "services"@);
    if port_arg matches Option::Some(Option::None) {
        r == Err::<Config, ConfigError>(ConfigError::PortNotInteger)
    } else if stack_of(stack_arg) is None {
        r == Err::<Config, ConfigError>(ConfigError::StackNotRecognized)
    } else if !all_strings(svc_args) {
        r == Err::<Config, ConfigError>(ConfigError::ServiceNotString)
    } else {
        &&& r is Ok
        &&& r->Ok_0.listen_port == port_of(port_arg)
        &&& r->Ok_0.listen_stack == stack_of(stack_arg)->0
        &&& r->Ok_0.services@.len() == svc_args.len()
        &&& forall|i: int|
            0 <= i < svc_args.len() ==> (#[trigger] r->Ok_0.services@[i])@ == svc_args[i]->0
    }
}

impl Config {
    /// Assemble a configuration from the plainly-decoded arguments of the
    /// three nodes. Each `Option`'s outer layer says whether the node (with
    /// an argument) is present, the inner layer whether that argument has
    /// the expected kind. The clauses below are the whole decoding rule.
    pub fn assemble(
        port_arg: Option<Option<i64>>,
        stack_arg: Option<Option<String>>,
        service_args: &Vec<Option<String>>,
    ) -> (r: Result<Config, ConfigError>)
        ensures
            port_arg matches Option::Some(Option::None) ==> r == Err::<Config, ConfigError>(
                ConfigError::PortNotInteger,
            ),
            !(port_arg matches Option::Some(Option::None)) && stack_of(opt_string_view(stack_arg))
                is None ==> r == Err::<Config, ConfigError>(ConfigError::StackNotRecognized),
            !(port_arg matches Option::Some(Option::None)) && stack_of(opt_string_view(stack_arg))
                is Some && !all_strings(string_opts_view(service_args@)) ==> r == Err::<
                Config,
                ConfigError,
            >(ConfigError::ServiceNotString),
            !(port_arg matches Option::Some(Option::None)) && stack_of(opt_string_view(stack_arg))
                is Some && all_strings(string_opts_view(service_args@)) ==> {
                &&& r is Ok
                &&& r->Ok_0.listen_port == port_of(port_arg)
                &&& r->Ok_0.listen_stack == stack_of(opt_string_view(stack_arg))->0
                &&& r->Ok_0.services@.len() == service_args@.len()
                &&& forall|i: int|
                    0 <= i < service_args@.len() ==> r->Ok_0.services@[i] == service_args@[i]->0
            },
    {
        let listen_port: u16 = match port_arg {
            Option::None => 8080,
            Option::Some(Option::None) => {
                return Err(ConfigError::PortNotInteger);
            },
            Option::Some(Option::Some(v)) => {
                assert(0 <= (v & 0xffff) < 0x10000) by (bit_vector);
                (v & 0xffff) as u16
            },
        };
        let ghost g_stack = stack_arg;
        let listen_stack: ListenStack = match stack_arg {
            Option::None => ListenStack::Both,
            Option::Some(Option::None) => {
                return Err(ConfigError::StackNotRecognized);
            },
            Option::Some(Option::Some(s)) => {
                let v4_word: String = "v4".to_owned();
                let v6_word: String = "v6".to_owned();
                let both_word: String = "both".to_owned();
                if s == v4_word {
                    ListenStack::V4
                } else if s == v6_word {
                    ListenStack::V6
                } else if s == both_word {
                    ListenStack::Both
                } else {
                    return Err(ConfigError::StackNotRecognized);
                }
            },
        };
        assert(stack_of(opt_string_view(g_stack)) == Option::Some(listen_stack));
        let mut services: Vec<String> = Vec::new();
        let mut i: usize = 0;
        while i < service_args.len()
            invariant
                i <= service_args@.len(),
                services@.len() == i as int,
                forall|k: int|
                    0 <= k < i as int ==> (#[trigger] service_args@[k]) is Some && services@[k]
                        == service_args@[k]->0,
                !(port_arg matches Option::Some(Option::None)),
                stack_of(opt_string_view(g_stack)) == Option::Some(listen_stack),
                g_stack == stack_arg,
            decreases service_args@.len() - i,
        {
            match &service_args[i] {
                Option::Some(s) => {
                    services.push(s.clone());
                },
                Option::None => {
                    assert(!all_strings(string_opts_view(service_args@))) by {
                        assert(service_args@[i as int] is None);
                        assert(string_opts_view(service_args@)[i as int] is None);
                    }
                    return Err(ConfigError::ServiceNotString);
                },
            }
            i += 1;
        }
        assert(all_strings(string_opts_view(service_args@))) by {
            assert forall|k: int|
                0 <= k < string_opts_view(service_args@).len() implies (#[trigger] string_opts_view(
                service_args@,
            )[k]) is Some by {
                assert(service_args@[k] is Some);
            }
        }
        Ok(Config { listen_port, listen_stack, services })
    }

    /// Decode a configuration from kdl text: parse it with the kdl crate,
    /// read the `listen_port`, `listen_stack` and `services` nodes, and
    /// assemble the result. A syntax error comes exactly when the text is
    /// not well-formed kdl; otherwise the result is `decodes_to`'s rule
    /// over the named kdl reads of the text.
    pub fn from_kdl_text(text: &str) -> (r: Result<Config, ConfigError>)
        ensures
            kdl_parses(text@) <==> !(r matches Err(ConfigError::Syntax(_))),
            kdl_parses(text@) ==> decodes_to(text@, r),
    {
        let doc = match parse_kdl(text) {
            Ok(d) => d,
            Err(msg) => {
                return Err(ConfigError::Syntax(msg));
            },
        };
        let port_arg = kdl_int_arg(&doc, "listen_port");
        let stack_arg = kdl_string_arg(&doc, "listen_stack");
        let service_args = kdl_string_args(&doc, "services");
        let ghost g_stack = stack_arg;
        assert(port_arg == int_arg_of(text@, "listen_port"@));
        assert(opt_string_view(g_stack) == string_arg_of(text@, "listen_stack"@));
        assert(string_opts_view(service_args@) == string_args_of(text@, "services"@));
        let r = Config::assemble(port_arg, stack_arg, &service_args);
        proof {
            let svc_args = string_args_of(text@, "services"@);
            if !(port_arg matches Option::Some(Option::None)) && stack_of(
                opt_string_view(g_stack),
            ) is Some && all_strings(svc_args) {
                assert forall|i: int|
                    0 <= i < svc_args.len() implies (#[trigger] r->Ok_0.services@[i])@
                    == svc_args[i]->0 by {
                    assert(r->Ok_0.services@[i] == service_args@[i]->0);
                    assert(string_opts_view(service_args@)[i] == svc_args[i]);
                    assert(service_args@[i] is Some);
                }
            }
        }
        r
    }
}

} // verus!
