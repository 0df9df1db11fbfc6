//! The request envelope: sorting arguments by endpoint, refusing requests
//! that mix endpoints, and writing the frame text.

use crate::args::{OkexWsClientBodys, WsArg, WsPrivateArg};
use crate::error::{is_other, other, Error};
use crate::json::{
    chars_to_string, field, fields_view, json_array, json_object, json_opt_uint, json_string,
    push_json_opt_uint, push_json_string, render_array, render_object, Field,
};
use crate::operation::Operation;
use vstd::prelude::*;

verus! {

/// The texts held by a sequence of strings.
pub open spec fn texts(v: Seq<String>) -> Seq<Seq<char>> {
    v.map_values(|s: String| s@)
}

/// The JSON objects of the arguments, in order.
pub open spec fn arg_jsons(args: Seq<WsArg>) -> Seq<Seq<char>> {
    args.map_values(|a: WsArg| a.json())
}

/// The JSON objects of the public arguments, in order.
pub open spec fn public_jsons(args: Seq<WsArg>) -> Seq<Seq<char>>
    decreases args.len(),
{
    if args.len() == 0 {
        Seq::empty()
    } else {
        let before = public_jsons(args.drop_last());
        match args.last() {
            WsArg::Public(a) => before.push(a.json()),
            _ => before,
        }
    }
}

/// The JSON objects of the private arguments, in order.
pub open spec fn private_jsons(args: Seq<WsArg>) -> Seq<Seq<char>>
    decreases args.len(),
{
    if args.len() == 0 {
        Seq::empty()
    } else {
        let before = private_jsons(args.drop_last());
        match args.last() {
            WsArg::Private(a) => before.push(a.json()),
            _ => before,
        }
    }
}

pub open spec fn has_public(args: Seq<WsArg>) -> bool {
    exists|i: int| 0 <= i < args.len() && args[i] is Public
}

pub open spec fn has_private(args: Seq<WsArg>) -> bool {
    exists|i: int| 0 <= i < args.len() && args[i] is Private
}

pub open spec fn has_business(args: Seq<WsArg>) -> bool {
    exists|i: int| 0 <= i < args.len() && args[i] is Business
}

/// A login request must carry exactly one argument, the login parameters.
pub open spec fn login_arity_ok(op: Operation, args: Seq<WsArg>) -> bool {
    op == Operation::Login ==> args.len() == 1 && args[0] matches WsArg::Private(
        WsPrivateArg::Login(_),
    )
}

/// Whether a request with these arguments is refused, and with which fixed
/// diagnostic: business arguments first, then mixed endpoints, then the
/// number of arguments of a login.
pub open spec fn request_refusal(op: Operation, args: Seq<WsArg>) -> Option<Seq<char>> {
    if has_business(args) {
        Some("Business arguments are not supported"@)
    } else if has_public(args) && has_private(args) {
        Some("Too many argument categories provided"@)
    } else if !login_arity_ok(op, args) {
        Some("Login operation requires exactly one argument"@)
    } else {
        None
    }
}

/// The frame text of a request.
pub open spec fn request_text(id: Option<u64>, op: Operation, args: Seq<Seq<char>>) -> Seq<char> {
    json_object(
        seq![("id"@, json_opt_uint(id)), ("op"@, json_string(op.name())), ("args"@, json_array(args))],
    )
}

/// The sorted buckets hold exactly the arguments of their endpoint, and an
/// endpoint's bucket is empty exactly when no argument is of it. When only
/// one endpoint occurs, its bucket is every argument, in order.
pub proof fn lemma_buckets(args: Seq<WsArg>)
    ensures
        public_jsons(args).len() > 0 <==> has_public(args),
        private_jsons(args).len() > 0 <==> has_private(args),
        !has_private(args) && !has_business(args) ==> public_jsons(args) == arg_jsons(args),
        !has_public(args) && !has_business(args) ==> private_jsons(args) == arg_jsons(args),
    decreases args.len(),
{
    if args.len() > 0 {
        let init = args.drop_last();
        lemma_buckets(init);
        assert(arg_jsons(args) =~= arg_jsons(init).push(args.last().json()));
        assert(has_public(args) <==> has_public(init) || args.last() is Public) by {
            if has_public(args) {
                let i = choose|i: int| 0 <= i < args.len() && args[i] is Public;
                if i < args.len() - 1 {
                    assert(init[i] is Public);
                }
            }
            if has_public(init) {
                let i = choose|i: int| 0 <= i < init.len() && init[i] is Public;
                assert(args[i] is Public);
            }
        }
        assert(has_private(args) <==> has_private(init) || args.last() is Private) by {
            if has_private(args) {
                let i = choose|i: int| 0 <= i < args.len() && args[i] is Private;
                if i < args.len() - 1 {
                    assert(init[i] is Private);
                }
            }
            if has_private(init) {
                let i = choose|i: int| 0 <= i < init.len() && init[i] is Private;
                assert(args[i] is Private);
            }
        }
        assert(has_business(args) <==> has_business(init) || args.last() is Business) by {
            if has_business(args) {
                let i = choose|i: int| 0 <= i < args.len() && args[i] is Business;
                if i < args.len() - 1 {
                    assert(init[i] is Business);
                }
            }
            if has_business(init) {
                let i = choose|i: int| 0 <= i < init.len() && init[i] is Business;
                assert(args[i] is Business);
            }
        }
    } else {
        assert(arg_jsons(args) =~= Seq::empty());
    }
}

/// A request whose arguments all belong to one endpoint (and, for a login,
/// is the one login argument) is not refused. Its frame then holds, in
/// order, the object of each argument, and each object's first member is
/// `channel`, naming the argument's channel: the period-specific name for a
/// candle argument, the static name otherwise.
pub proof fn single_endpoint_requests_encode(op: Operation, args: Seq<WsArg>)
    requires
        !has_business(args),
        !(has_public(args) && has_private(args)),
        login_arity_ok(op, args),
    ensures
        request_refusal(op, args) is None,
        arg_jsons(args).len() == args.len(),
        forall|i: int|
            0 <= i < args.len() ==> #[trigger] arg_jsons(args)[i] == json_object(args[i].members())
                && args[i].members().len() > 0 && args[i].members()[0] == (
                "channel"@,
                json_string(args[i].channel()),
            ),
{
    assert forall|i: int| 0 <= i < args.len() implies #[trigger] arg_jsons(args)[i] == json_object(
        args[i].members(),
    ) && args[i].members().len() > 0 && args[i].members()[0] == (
        "channel"@,
        json_string(args[i].channel()),
    ) by {
        assert(!(args[i] is Business));
    }
}

/// A request that mixes public and private arguments is refused with the
/// mixed-category diagnostic, whatever its operation. (Business arguments are
/// refused before, for being business arguments.)
pub proof fn mixed_endpoints_are_refused(op: Operation, args: Seq<WsArg>)
    requires
        has_public(args),
        has_private(args),
        !has_business(args),
    ensures
        request_refusal(op, args) == Some("Too many argument categories provided"@),
{
}

/// A request as it is sent: an optional id, the operation, and the encoded
/// arguments.
#[derive(Clone, Debug)]
pub struct WsRequestMessage {
    pub id: Option<u64>,
    pub op: Operation,
    pub args: Vec<String>,
}

impl WsRequestMessage {
    /// The frame text of the request.
    pub open spec fn text(self) -> Seq<char> {
        request_text(self.id, self.op, texts(self.args@))
    }

    /// Writes the request as a text frame.
    pub fn to_text(&self) -> (r: String)
        ensures
            r@ == self.text(),
    {
        let mut fields: Vec<Field> = Vec::new();
        let mut id: Vec<char> = Vec::new();
        push_json_opt_uint(&mut id, self.id);
        fields.push(field("id", id));
        let mut op: Vec<char> = Vec::new();
        push_json_string(&mut op, self.op.as_str());
        fields.push(field("op", op));
        let args = render_array(&self.args);
        fields.push(field("args", args));
        assert(fields_view(fields@) =~= seq![
            ("id"@, json_opt_uint(self.id)),
            ("op"@, json_string(self.op.name())),
            ("args"@, json_array(texts(self.args@))),
        ]);
        let text = render_object(&fields);
        chars_to_string(&text)
    }
}

/// Builds the request for `operation` over `args`.
///
/// Business arguments are refused; public and private arguments cannot
/// share a request; and a login takes exactly one argument, the login
/// parameters. Otherwise the request carries every argument, in order.
pub fn build_request_body(operation: &Operation, args: &[WsArg]) -> (r: Result<
    WsRequestMessage,
    Error,
>)
    ensures
        match request_refusal(*operation, args@) {
            Some(msg) => r matches Err(e) && is_other(e, msg),
            None => r matches Ok(m) && m.id is None && m.op == *operation && texts(m.args@)
                == arg_jsons(args@),
        },
{
    let n = args.len();
    let mut client_body = OkexWsClientBodys::new();
    let mut i: usize = 0;
    while i < n
        invariant
            i <= n,
            n == args@.len(),
            texts(client_body.public_body@) == public_jsons(args@.subrange(0, i as int)),
            texts(client_body.private_body@) == private_jsons(args@.subrange(0, i as int)),
            client_body.business_body@.len() == 0,
            forall|j: int| 0 <= j < i ==> !(args@[j] is Business),
        decreases n - i,
    {
        let ghost before = args@.subrange(0, i as int);
        assert(args@.subrange(0, i + 1).drop_last() =~= before);
        match &args[i] {
            WsArg::Public(a) => {
                let v = a.as_value();
                client_body.public_body.push(v);
                assert(texts(client_body.public_body@) =~= public_jsons(before).push(a.json()));
            },
            WsArg::Private(a) => {
                let v = a.as_value();
                client_body.private_body.push(v);
                assert(texts(client_body.private_body@) =~= private_jsons(before).push(a.json()));
            },
            WsArg::Business => {
                assert(args@[i as int] is Business);
                return Err(other("Business arguments are not supported"));
            },
        }
        i = i + 1;
    }
    assert(args@.subrange(0, n as int) =~= args@);
    proof {
        lemma_buckets(args@);
    }
    let mut new_args: Vec<String> = Vec::new();
    let mut category_count: usize = 0;
    if client_body.public_body.len() > 0 {
        category_count = category_count + 1;
        new_args.append(&mut client_body.public_body);
    }
    if client_body.private_body.len() > 0 {
        category_count = category_count + 1;
        new_args.append(&mut client_body.private_body);
    }
    if client_body.business_body.len() > 0 {
        category_count = category_count + 1;
        new_args.append(&mut client_body.business_body);
    }
    if category_count > 1 {
        return Err(other("Too many argument categories provided"));
    }
    if *operation == Operation::Login {
        let single_login = n == 1 && match &args[0] {
            WsArg::Private(WsPrivateArg::Login(_)) => true,
            _ => false,
        };
        if !single_login {
            return Err(other("Login operation requires exactly one argument"));
        }
    }
    assert(texts(new_args@) =~= arg_jsons(args@));
    Ok(WsRequestMessage { id: None, op: *operation, args: new_args })
}

/// Whether `build_args` keeps the private arguments: for a login, or once
/// authenticated.
pub open spec fn keeps_private(op: Operation, is_authenticated: bool) -> bool {
    op == Operation::Login || is_authenticated
}

/// Whether `build_args` refuses, and with which fixed diagnostic.
pub open spec fn sorting_refusal(op: Operation, args: Seq<WsArg>, is_authenticated: bool) -> Option<
    Seq<char>,
> {
    if has_business(args) {
        Some("Business arguments are not supported"@)
    } else if has_public(args) && has_private(args) && keeps_private(op, is_authenticated) {
        Some("Cannot mix different argument categories"@)
    } else if op == Operation::Login && args.len() != 1 {
        Some("Login operation requires exactly one argument"@)
    } else {
        None
    }
}

/// Sorts `args` into buckets by endpoint. Business arguments are refused;
/// private arguments are kept only for a login or once authenticated; the
/// kept arguments may not span two endpoints; and a login takes exactly one
/// argument.
pub fn build_args(args: &[WsArg], operation: &Operation, is_authenticated: bool) -> (r: Result<
    OkexWsClientBodys,
    Error,
>)
    ensures
        match sorting_refusal(*operation, args@, is_authenticated) {
            Some(msg) => r matches Err(e) && is_other(e, msg),
            None => r matches Ok(b) && texts(b.public_body@) == public_jsons(args@) && texts(
                b.private_body@,
            ) == (if keeps_private(*operation, is_authenticated) {
                private_jsons(args@)
            } else {
                Seq::empty()
            }) && b.business_body@.len() == 0,
        },
{
    let n = args.len();
    let keep = *operation == Operation::Login || is_authenticated;
    let mut client_body = OkexWsClientBodys::new();
    let mut category_count: usize = 0;
    let mut i: usize = 0;
    while i < n
        invariant
            i <= n,
            n == args@.len(),
            keep == keeps_private(*operation, is_authenticated),
            texts(client_body.public_body@) == public_jsons(args@.subrange(0, i as int)),
            texts(client_body.private_body@) == (if keep {
                private_jsons(args@.subrange(0, i as int))
            } else {
                Seq::empty()
            }),
            client_body.business_body@.len() == 0,
            category_count == (if client_body.public_body@.len() > 0 { 1usize } else { 0 }) + (
            if client_body.private_body@.len() > 0 {
                1usize
            } else {
                0
            }),
            forall|j: int| 0 <= j < i ==> !(args@[j] is Business),
        decreases n - i,
    {
        let ghost before = args@.subrange(0, i as int);
        assert(args@.subrange(0, i + 1).drop_last() =~= before);
        match &args[i] {
            WsArg::Public(a) => {
                if client_body.public_body.len() == 0 {
                    category_count = category_count + 1;
                }
                let v = a.as_value();
                client_body.public_body.push(v);
                assert(texts(client_body.public_body@) =~= public_jsons(before).push(a.json()));
            },
            WsArg::Private(a) => {
                if keep {
                    if client_body.private_body.len() == 0 {
                        category_count = category_count + 1;
                    }
                    let v = a.as_value();
                    client_body.private_body.push(v);
                    assert(texts(client_body.private_body@) =~= private_jsons(before).push(
                        a.json(),
                    ));
                }
            },
            WsArg::Business => {
                assert(args@[i as int] is Business);
                assert(has_business(args@));
                return Err(other("Business arguments are not supported"));
            },
        }
        i = i + 1;
    }
    assert(args@.subrange(0, n as int) =~= args@);
    proof {
        lemma_buckets(args@);
    }
    if category_count > 1 {
        return Err(other("Cannot mix different argument categories"));
    }
    if *operation == Operation::Login && n != 1 {
        return Err(other("Login operation requires exactly one argument"));
    }
    Ok(client_body)
}

/// Encodes a request for `operation` over `args` as its frame text; refused
/// exactly as `build_request_body` refuses.
pub fn encode_request(operation: &Operation, args: &[WsArg]) -> (r: Result<String, Error>)
    ensures
        match request_refusal(*operation, args@) {
            Some(msg) => r matches Err(e) && is_other(e, msg),
            None => r matches Ok(t) && t@ == request_text(None, *operation, arg_jsons(args@)),
        },
{
    match build_request_body(operation, args) {
        Ok(body) => Ok(body.to_text()),
        Err(e) => Err(e),
    }
}

} // verus!
