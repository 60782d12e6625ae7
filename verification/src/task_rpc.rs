//! The arguments of the task-RPC interface attribute and the names of the
//! items it generates: a handle, a receiver and a request enum for a type,
//! with one variant per method. Besides the `default` channel, the
//! `extra_channels` argument names further channels, and a method's
//! `channel` key picks the one that executes it.
//!
//! The attribute arguments are taken as plain values: each argument is a
//! name and a literal, and each method attribute is a list of keys.

use crate::text::str_eq;
use vstd::prelude::*;

verus! {

/// The visibilities that generated items may be given.
#[derive(Clone, Copy, Debug, PartialEq, Eq, Structural)]
pub enum Visibility {
    /// `pub`
    Pub,
    /// `pub(super)`
    PubSuper,
}

/// A literal given as argument value.
#[derive(Debug)]
pub enum Literal {
    Str(String),
    /// Any other kind of literal.
    Other,
}

/// An argument of the interface attribute.
#[derive(Debug)]
pub enum MacroArg {
    /// `name = literal`; the name is absent where the path is no plain
    /// identifier.
    NameValue { name: Option<String>, value: Literal },
    /// Another kind of meta item.
    OtherMeta,
    /// A bare literal.
    Lit,
}

/// Why the attribute arguments are refused.
#[derive(Debug)]
pub enum ArgError {
    /// "unsupported attribute value type"
    UnsupportedValueType,
    /// "duplicate attribute"
    DuplicateAttribute,
    /// "duplicate handle_name"
    DuplicateHandleName,
    /// "unsupported visibility: {0}"
    UnsupportedVisibility(String),
    /// "expected meta arg"
    ExpectedMetaArg,
    /// "expected namevalue arg"
    ExpectedNameValueArg,
    /// "missing ident"
    MissingIdent,
    /// "unsupported attribute"
    UnsupportedAttribute,
    /// "expected MetaList"
    ExpectedMetaList,
    /// "unsupported key"
    UnsupportedKey,
    /// "self type of the impl must be a Path"
    SelfTypeNotPath,
    /// "no segments in impl self type path"
    NoSegments,
    /// "method needs an explicit return type"
    MissingReturnType,
    /// "typed args must have identifiers as `pat`"
    ArgNotIdent,
    /// A name in `extra_channels` is empty or `default`, which always exists.
    InvalidChannel(String),
    /// A method names a channel that does not exist.
    UnknownChannel(String),
}

/// The parsed arguments of the interface attribute.
#[derive(Debug)]
pub struct MacroArgs {
    pub handle_name: Option<String>,
    pub enum_visibility: Option<Visibility>,
    pub handle_visibility: Option<Visibility>,
    pub handlefns_visibility: Option<Visibility>,
    pub receiver_visibility: Option<Visibility>,
    /// The channels besides `default`, from a comma-separated list.
    pub extra_channels: Option<Vec<String>>,
}

/// The parts of `s` between commas, in order.
pub open spec fn split_commas(s: Seq<char>) -> Seq<Seq<char>>
    decreases s.len(),
{
    if s.len() == 0 {
        seq![Seq::empty()]
    } else {
        let parts = split_commas(s.drop_last());
        if s.last() == ',' {
            parts.push(Seq::empty())
        } else {
            parts.update(parts.len() - 1, parts.last().push(s.last()))
        }
    }
}

/// A name that an extra channel may have: not empty, and not `default`.
pub open spec fn valid_channel(name: Seq<char>) -> bool {
    name.len() > 0 && name != "default"@
}

/// The first of `names` that no extra channel may have, if any.
pub open spec fn first_invalid(names: Seq<Seq<char>>) -> Option<Seq<char>>
    decreases names.len(),
{
    if names.len() == 0 {
        None
    } else {
        match first_invalid(names.drop_last()) {
            Some(n) => Some(n),
            None => if valid_channel(names.last()) {
                None
            } else {
                Some(names.last())
            },
        }
    }
}

/// The texts of `v`.
pub open spec fn texts(v: Vec<String>) -> Seq<Seq<char>> {
    v@.map_values(|p: String| p@)
}

proof fn lemma_split_len(s: Seq<char>)
    ensures
        split_commas(s).len() >= 1,
    decreases s.len(),
{
    if s.len() > 0 {
        lemma_split_len(s.drop_last());
    }
}

/// The comma-separated names of `s`, or the first that no extra channel
/// may have.
fn parse_channels(s: &str) -> (r: Result<Vec<String>, ArgError>)
    ensures
        match first_invalid(split_commas(s@)) {
            Some(bad) => r matches Err(ArgError::InvalidChannel(t)) && r->Err_0->InvalidChannel_0@
                == bad,
            None => r matches Ok(v) && texts(v) == split_commas(s@),
        },
{
    let mut done: Vec<String> = Vec::new();
    let mut current = String::new();
    proof {
        reveal_strlit("");
    }
    for c in it: s.chars()
        invariant
            it.seq() == s@,
            texts(done).push(current@) == split_commas(s@.take(it.index() as int)),
    {
        proof {
            assert(s@.take(it.index() + 1).drop_last() == s@.take(it.index() as int));
            lemma_split_len(s@.take(it.index() as int));
        }
        let ghost before_done = texts(done);
        let ghost before_current = current@;
        if c == ',' {
            let finished = current;
            done.push(finished);
            current = String::new();
            proof {
                assert(texts(done) == before_done.push(before_current));
                assert(texts(done).push(current@) == before_done.push(before_current).push(
                    Seq::<char>::empty(),
                ));
            }
        } else {
            current.push(c);
            proof {
                let parts = before_done.push(before_current);
                assert(texts(done).push(current@) == parts.update(
                    parts.len() - 1,
                    parts.last().push(c),
                ));
            }
        }
    }
    done.push(current);
    proof {
        assert(s@.take(s@.len() as int) == s@);
    }
    let ghost all = texts(done);
    let mut i: usize = 0;
    while i < done.len()
        invariant
            all == texts(done),
            all == split_commas(s@),
            i <= done@.len(),
            first_invalid(all.take(i as int)) is None,
        decreases done@.len() - i,
    {
        proof {
            assert(all.take(i + 1).drop_last() == all.take(i as int));
            assert(all[i as int] == done@[i as int]@);
            assert(all.take(i + 1).last() == done@[i as int]@);
            reveal_strlit("default");
            reveal_strlit("");
        }
        let name = done[i].as_str();
        if str_eq(name, "") || str_eq(name, "default") {
            proof {
                assert(first_invalid(all.take(i + 1)) == Some(done@[i as int]@));
                lemma_first_invalid_prefix(all, i as int + 1);
            }
            return Err(ArgError::InvalidChannel(done[i].clone()));
        }
        proof {
            if done@[i as int]@.len() == 0 {
                assert(done@[i as int]@ =~= ""@);
            }
            assert(valid_channel(done@[i as int]@));
        }
        i += 1;
    }
    proof {
        assert(all.take(done@.len() as int) == all);
    }
    Ok(done)
}

/// Once a prefix holds an invalid name, the whole list's first invalid name
/// is that prefix's.
proof fn lemma_first_invalid_prefix(names: Seq<Seq<char>>, k: int)
    requires
        0 <= k <= names.len(),
        first_invalid(names.take(k)) is Some,
    ensures
        first_invalid(names) == first_invalid(names.take(k)),
    decreases names.len() - k,
{
    if k < names.len() {
        assert(names.take(k + 1).drop_last() == names.take(k));
        lemma_first_invalid_prefix(names, k + 1);
    } else {
        assert(names.take(k) == names);
    }
}

/// The visibility that the text `s` names.
pub open spec fn spec_visibility(s: Seq<char>) -> Option<Visibility> {
    if s == "pub"@ {
        Some(Visibility::Pub)
    } else if s == "pub(super)"@ {
        Some(Visibility::PubSuper)
    } else {
        None
    }
}

/// Store the visibility that `lit` names in `destination`, which must not
/// hold one yet.
pub fn parse_visibility_str(lit: &Literal, destination: &mut Option<Visibility>) -> (r: Result<
    (),
    ArgError,
>)
    ensures
        match *lit {
            Literal::Other => r matches Err(ArgError::UnsupportedValueType),
            Literal::Str(s) => if (*old(destination)) is Some {
                r matches Err(ArgError::DuplicateAttribute)
            } else {
                match spec_visibility(s@) {
                    Some(v) => r is Ok && *final(destination) == Some(v),
                    None => {
                        &&& r matches Err(ArgError::UnsupportedVisibility(t))
                        &&& r->Err_0->UnsupportedVisibility_0@ == s@
                    },
                }
            },
        },
        r is Err ==> *final(destination) == *old(destination),
{
    let value = match lit {
        Literal::Str(s) => s,
        Literal::Other => return Err(ArgError::UnsupportedValueType),
    };
    if destination.is_some() {
        return Err(ArgError::DuplicateAttribute);
    }
    proof {
        reveal_strlit("pub");
        reveal_strlit("pub(super)");
    }
    if str_eq(value.as_str(), "pub") {
        *destination = Some(Visibility::Pub);
    } else if str_eq(value.as_str(), "pub(super)") {
        *destination = Some(Visibility::PubSuper);
    } else {
        return Err(ArgError::UnsupportedVisibility(value.clone()));
    }
    Ok(())
}

/// The argument names that set visibilities.
pub open spec fn visibility_arg(name: Seq<char>) -> bool {
    name == "enum_visibility"@ || name == "handle_visibility"@ || name == "handlefns_visibility"@
        || name == "receiver_visibility"@
}

/// The visibility field of `a` that the argument named `name` sets.
pub open spec fn visibility_field(a: MacroArgs, name: Seq<char>) -> Option<Visibility> {
    if name == "enum_visibility"@ {
        a.enum_visibility
    } else if name == "handle_visibility"@ {
        a.handle_visibility
    } else if name == "handlefns_visibility"@ {
        a.handlefns_visibility
    } else {
        a.receiver_visibility
    }
}

/// `after` equals `before` but for the field set by the argument `name`.
pub open spec fn others_unchanged(before: MacroArgs, after: MacroArgs, name: Seq<char>) -> bool {
    &&& name != "handle_name"@ ==> after.handle_name == before.handle_name
    &&& name != "enum_visibility"@ ==> after.enum_visibility == before.enum_visibility
    &&& name != "handle_visibility"@ ==> after.handle_visibility == before.handle_visibility
    &&& name != "handlefns_visibility"@ ==> after.handlefns_visibility
        == before.handlefns_visibility
    &&& name != "receiver_visibility"@ ==> after.receiver_visibility
        == before.receiver_visibility
    &&& name != "extra_channels"@ ==> after.extra_channels == before.extra_channels
}

/// `after` is `before` with the argument `arg` applied, or `r` is why it is
/// refused.
pub open spec fn arg_applied(
    before: MacroArgs,
    arg: MacroArg,
    after: MacroArgs,
    r: Result<(), ArgError>,
) -> bool {
    match arg {
        MacroArg::Lit => r matches Err(ArgError::ExpectedMetaArg),
        MacroArg::OtherMeta => r matches Err(ArgError::ExpectedNameValueArg),
        MacroArg::NameValue { name: None, .. } => r matches Err(ArgError::MissingIdent),
        MacroArg::NameValue { name: Some(n), value } => if n@ == "handle_name"@ {
            match value {
                Literal::Other => r matches Err(ArgError::UnsupportedValueType),
                Literal::Str(s) => if before.handle_name is Some {
                    r matches Err(ArgError::DuplicateHandleName)
                } else {
                    &&& r is Ok
                    &&& after.handle_name matches Some(h)
                    &&& after.handle_name.unwrap()@ == s@
                    &&& others_unchanged(before, after, n@)
                },
            }
        } else if visibility_arg(n@) {
            match value {
                Literal::Other => r matches Err(ArgError::UnsupportedValueType),
                Literal::Str(s) => if visibility_field(before, n@) is Some {
                    r matches Err(ArgError::DuplicateAttribute)
                } else {
                    match spec_visibility(s@) {
                        Some(v) => {
                            &&& r is Ok
                            &&& visibility_field(after, n@) == Some(v)
                            &&& others_unchanged(before, after, n@)
                        },
                        None => {
                            &&& r matches Err(ArgError::UnsupportedVisibility(t))
                            &&& r->Err_0->UnsupportedVisibility_0@ == s@
                        },
                    }
                },
            }
        } else if n@ == "extra_channels"@ {
            match value {
                Literal::Other => r matches Err(ArgError::UnsupportedValueType),
                Literal::Str(s) => if before.extra_channels is Some {
                    r matches Err(ArgError::DuplicateAttribute)
                } else {
                    match first_invalid(split_commas(s@)) {
                        Some(bad) => {
                            &&& r matches Err(ArgError::InvalidChannel(t))
                            &&& r->Err_0->InvalidChannel_0@ == bad
                        },
                        None => {
                            &&& r is Ok
                            &&& after.extra_channels matches Some(v)
                            &&& texts(after.extra_channels.unwrap()) == split_commas(s@)
                            &&& others_unchanged(before, after, n@)
                        },
                    }
                },
            }
        } else {
            r matches Err(ArgError::UnsupportedAttribute)
        },
    }
}

impl MacroArgs {
    /// No arguments given.
    pub fn new() -> (r: Self)
        ensures
            args_empty(r),
    {
        MacroArgs {
            handle_name: None,
            enum_visibility: None,
            handle_visibility: None,
            handlefns_visibility: None,
            receiver_visibility: None,
            extra_channels: None,
        }
    }

    /// Apply one argument of the attribute.
    pub fn apply(&mut self, arg: &MacroArg) -> (r: Result<(), ArgError>)
        ensures
            arg_applied(*old(self), *arg, *final(self), r),
    {
        proof {
            reveal_strlit("handle_name");
            reveal_strlit("enum_visibility");
            reveal_strlit("handle_visibility");
            reveal_strlit("handlefns_visibility");
            reveal_strlit("receiver_visibility");
            reveal_strlit("extra_channels");
        }
        let (name, value) = match arg {
            MacroArg::Lit => return Err(ArgError::ExpectedMetaArg),
            MacroArg::OtherMeta => return Err(ArgError::ExpectedNameValueArg),
            MacroArg::NameValue { name, value } => match name {
                None => return Err(ArgError::MissingIdent),
                Some(n) => (n, value),
            },
        };
        let name = name.as_str();
        if str_eq(name, "handle_name") {
            let value = match value {
                Literal::Str(s) => s,
                Literal::Other => return Err(ArgError::UnsupportedValueType),
            };
            if self.handle_name.is_some() {
                return Err(ArgError::DuplicateHandleName);
            }
            self.handle_name = Some(value.clone());
            Ok(())
        } else if str_eq(name, "enum_visibility") {
            parse_visibility_str(value, &mut self.enum_visibility)
        } else if str_eq(name, "handle_visibility") {
            parse_visibility_str(value, &mut self.handle_visibility)
        } else if str_eq(name, "handlefns_visibility") {
            parse_visibility_str(value, &mut self.handlefns_visibility)
        } else if str_eq(name, "receiver_visibility") {
            parse_visibility_str(value, &mut self.receiver_visibility)
        } else if str_eq(name, "extra_channels") {
            let value = match value {
                Literal::Str(s) => s,
                Literal::Other => return Err(ArgError::UnsupportedValueType),
            };
            if self.extra_channels.is_some() {
                return Err(ArgError::DuplicateAttribute);
            }
            let channels = parse_channels(value.as_str())?;
            self.extra_channels = Some(channels);
            Ok(())
        } else {
            Err(ArgError::UnsupportedAttribute)
        }
    }
}

/// No argument has been applied to `a`.
pub open spec fn args_empty(a: MacroArgs) -> bool {
    &&& a.handle_name is None
    &&& a.enum_visibility is None
    &&& a.handle_visibility is None
    &&& a.handlefns_visibility is None
    &&& a.receiver_visibility is None
    &&& a.extra_channels is None
}

/// `states` are the arguments after each of the first `states.len() - 1`
/// of `args` has been applied, each of them accepted.
pub open spec fn applied_chain(args: Seq<MacroArg>, states: Seq<MacroArgs>) -> bool {
    &&& 1 <= states.len() <= args.len() + 1
    &&& args_empty(states[0])
    &&& forall|i: int|
        0 <= i < states.len() - 1 ==> arg_applied(#[trigger] states[i], args[i], states[i + 1], Ok(()))
}

/// `r` is what parsing `args` gives: the arguments with all of `args`
/// applied, or the error of the first one refused.
pub open spec fn args_outcome(args: Seq<MacroArg>, r: Result<MacroArgs, ArgError>) -> bool {
    match r {
        Ok(a) => exists|states: Seq<MacroArgs>|
            {
                &&& #[trigger] applied_chain(args, states)
                &&& states.len() == args.len() + 1
                &&& a == states.last()
            },
        Err(e) => exists|states: Seq<MacroArgs>, after: MacroArgs|
            {
                &&& applied_chain(args, states)
                &&& states.len() <= args.len()
                &&& #[trigger] arg_applied(states.last(), args[states.len() - 1], after, Err(e))
            },
    }
}

/// Parse the arguments of the interface attribute, in order; the first
/// one refused stops the parse with its error.
pub fn parse_args(args: &Vec<MacroArg>) -> (r: Result<MacroArgs, ArgError>)
    ensures
        args_outcome(args@, r),
{
    let mut parsed = MacroArgs::new();
    let ghost mut states: Seq<MacroArgs> = seq![parsed];
    let mut i: usize = 0;
    while i < args.len()
        invariant
            i <= args@.len(),
            states.len() == i + 1,
            applied_chain(args@, states),
            states.last() == parsed,
        decreases args@.len() - i,
    {
        let ghost before = parsed;
        match parsed.apply(&args[i]) {
            Ok(()) => {},
            Err(e) => {
                proof {
                    assert(arg_applied(states.last(), args@[states.len() - 1], parsed, Err(e)));
                }
                return Err(e);
            },
        }
        proof {
            let old_states = states;
            states = states.push(parsed);
            assert forall|j: int| 0 <= j < states.len() - 1 implies arg_applied(
                #[trigger] states[j],
                args@[j],
                states[j + 1],
                Ok(()),
            ) by {
                if j < i {
                    assert(states[j] == old_states[j]);
                    assert(states[j + 1] == old_states[j + 1]);
                }
            }
        }
        i += 1;
    }
    Ok(parsed)
}

/// A key given to the task-RPC attribute of a method.
#[derive(Debug)]
pub enum MethodKey {
    /// `nowait`
    NoWait,
    /// `channel = literal`: the channel that executes the method.
    Channel(Literal),
    /// Anything else.
    Unsupported,
}

/// An attribute of a method.
#[derive(Debug)]
pub enum MethodAttribute<T> {
    /// The task-RPC attribute: its keys, or `None` where it is no list.
    TaskRpc(Option<Vec<MethodKey>>),
    /// Any other attribute, kept on the method.
    Other(T),
}

/// The attributes that a method keeps: all but the task-RPC ones.
pub open spec fn kept_attributes<T>(attrs: Seq<MethodAttribute<T>>) -> Seq<T>
    decreases attrs.len(),
{
    if attrs.len() == 0 {
        Seq::empty()
    } else {
        match attrs.last() {
            MethodAttribute::Other(t) => kept_attributes(attrs.drop_last()).push(t),
            MethodAttribute::TaskRpc(_) => kept_attributes(attrs.drop_last()),
        }
    }
}

/// Why a method key is refused, if it is.
pub open spec fn key_error(k: MethodKey) -> Option<ArgError> {
    match k {
        MethodKey::NoWait => None,
        MethodKey::Channel(Literal::Str(_)) => None,
        MethodKey::Channel(Literal::Other) => Some(ArgError::UnsupportedValueType),
        MethodKey::Unsupported => Some(ArgError::UnsupportedKey),
    }
}

/// Why the first refused key of `keys` is refused, if one is.
pub open spec fn keys_error(keys: Seq<MethodKey>) -> Option<ArgError>
    decreases keys.len(),
{
    if keys.len() == 0 {
        None
    } else {
        match keys_error(keys.drop_last()) {
            Some(e) => Some(e),
            None => key_error(keys.last()),
        }
    }
}

/// Whether `keys` say `nowait`.
pub open spec fn keys_nowait(keys: Seq<MethodKey>) -> bool
    decreases keys.len(),
{
    keys.len() > 0 && (keys_nowait(keys.drop_last()) || keys.last() is NoWait)
}

/// The channel that the last channel key of `keys` names, if any.
pub open spec fn keys_channel(keys: Seq<MethodKey>) -> Option<Seq<char>>
    decreases keys.len(),
{
    if keys.len() == 0 {
        None
    } else {
        match keys.last() {
            MethodKey::Channel(Literal::Str(c)) => Some(c@),
            _ => keys_channel(keys.drop_last()),
        }
    }
}

/// Why a method attribute is refused, if it is.
pub open spec fn attr_error<T>(attr: MethodAttribute<T>) -> Option<ArgError> {
    match attr {
        MethodAttribute::TaskRpc(None) => Some(ArgError::ExpectedMetaList),
        MethodAttribute::TaskRpc(Some(keys)) => keys_error(keys@),
        MethodAttribute::Other(_) => None,
    }
}

/// Whether the task-RPC attributes of a method are all lists of known keys.
pub open spec fn method_attrs_ok<T>(attrs: Seq<MethodAttribute<T>>) -> bool {
    forall|i: int| 0 <= i < attrs.len() ==> attr_error(#[trigger] attrs[i]) is None
}

/// Whether some task-RPC attribute of a method says `nowait`.
pub open spec fn has_nowait<T>(attrs: Seq<MethodAttribute<T>>) -> bool
    decreases attrs.len(),
{
    attrs.len() > 0 && (has_nowait(attrs.drop_last()) || match attrs.last() {
        MethodAttribute::TaskRpc(Some(keys)) => keys_nowait(keys@),
        _ => false,
    })
}

/// The channel that the last channel key of a method's attributes names, if
/// any.
pub open spec fn chosen_channel<T>(attrs: Seq<MethodAttribute<T>>) -> Option<Seq<char>>
    decreases attrs.len(),
{
    if attrs.len() == 0 {
        None
    } else {
        match attrs.last() {
            MethodAttribute::TaskRpc(Some(keys)) => match keys_channel(keys@) {
                Some(c) => Some(c),
                None => chosen_channel(attrs.drop_last()),
            },
            _ => chosen_channel(attrs.drop_last()),
        }
    }
}

/// The channel that executes a method: the one its attributes name, else
/// `default`.
pub open spec fn method_channel<T>(attrs: Seq<MethodAttribute<T>>) -> Seq<char> {
    match chosen_channel(attrs) {
        Some(c) => c,
        None => "default"@,
    }
}

/// The attribute at `i` is the first one refused, with the error `e`.
pub open spec fn first_attr_error<T>(attrs: Seq<MethodAttribute<T>>, i: int, e: ArgError) -> bool {
    &&& 0 <= i < attrs.len()
    &&& method_attrs_ok(attrs.take(i))
    &&& attr_error(attrs[i]) == Some(e)
}

/// `r` is what taking the task-RPC attributes off a method with `attrs`
/// gives: whether calls wait, the channel, and the attributes kept.
pub open spec fn method_args_outcome<T>(
    attrs: Seq<MethodAttribute<T>>,
    r: Result<(bool, String, Vec<T>), ArgError>,
) -> bool {
    &&& r is Ok <==> method_attrs_ok(attrs)
    &&& r matches Ok((wait, channel, kept)) ==> {
        &&& wait == !has_nowait(attrs)
        &&& channel@ == method_channel(attrs)
        &&& kept@ == kept_attributes(attrs)
    }
    &&& r matches Err(e) ==> exists|i: int| #[trigger] first_attr_error(attrs, i, e)
}

/// Once a prefix of `keys` holds a refused key, the first refused key of
/// all of them is that one.
proof fn lemma_keys_error_prefix(keys: Seq<MethodKey>, k: int)
    requires
        0 <= k <= keys.len(),
        keys_error(keys.take(k)) is Some,
    ensures
        keys_error(keys) == keys_error(keys.take(k)),
    decreases keys.len() - k,
{
    if k < keys.len() {
        assert(keys.take(k + 1).drop_last() == keys.take(k));
        lemma_keys_error_prefix(keys, k + 1);
    } else {
        assert(keys.take(k) == keys);
    }
}

/// The text of an optional string.
pub open spec fn opt_text(o: Option<String>) -> Option<Seq<char>> {
    match o {
        Some(s) => Some(s@),
        None => None,
    }
}

/// Take the task-RPC attributes off a method: whether calls wait for the
/// method to complete (unless `nowait` is given), the channel that executes
/// it (`default` unless one is named; the last one named counts) and the
/// attributes kept.
pub fn extract_method_args<T>(attrs: Vec<MethodAttribute<T>>) -> (r: Result<
    (bool, String, Vec<T>),
    ArgError,
>)
    ensures
        method_args_outcome(attrs@, r),
{
    let ghost orig = attrs@;
    let n = attrs.len();
    let mut rest = attrs;
    let mut kept: Vec<T> = Vec::new();
    let mut wait = true;
    let mut channel: Option<String> = None;
    let mut i: usize = 0;
    while i < n
        invariant
            orig == attrs@,
            n == orig.len(),
            i <= n,
            rest@ == orig.skip(i as int),
            kept@ == kept_attributes(orig.take(i as int)),
            method_attrs_ok(orig.take(i as int)),
            wait == !has_nowait(orig.take(i as int)),
            opt_text(channel) == chosen_channel(orig.take(i as int)),
        decreases n - i,
    {
        let attr = rest.remove(0);
        let ghost prefix = orig.take(i as int);
        let ghost next = orig.take(i + 1);
        proof {
            assert(attr == orig[i as int]);
            assert(rest@ == orig.skip(i + 1));
            assert(next.drop_last() == prefix);
            assert(next.last() == orig[i as int]);
        }
        match attr {
            MethodAttribute::Other(t) => {
                kept.push(t);
            },
            MethodAttribute::TaskRpc(None) => {
                proof {
                    assert(attr_error(orig[i as int]) == Some(ArgError::ExpectedMetaList));
                    assert(first_attr_error(orig, i as int, ArgError::ExpectedMetaList));
                }
                return Err(ArgError::ExpectedMetaList);
            },
            MethodAttribute::TaskRpc(Some(keys)) => {
                let mut nowait = false;
                let mut named: Option<String> = None;
                let mut k: usize = 0;
                while k < keys.len()
                    invariant
                        orig == attrs@,
                        i < orig.len(),
                        method_attrs_ok(orig.take(i as int)),
                        orig[i as int] == MethodAttribute::<T>::TaskRpc(Some(keys)),
                        k <= keys@.len(),
                        keys_error(keys@.take(k as int)) is None,
                        nowait == keys_nowait(keys@.take(k as int)),
                        opt_text(named) == keys_channel(keys@.take(k as int)),
                    decreases keys@.len() - k,
                {
                    proof {
                        assert(keys@.take(k + 1).drop_last() == keys@.take(k as int));
                        assert(keys@.take(k + 1).last() == keys@[k as int]);
                    }
                    match &keys[k] {
                        MethodKey::NoWait => {
                            nowait = true;
                        },
                        MethodKey::Channel(Literal::Str(c)) => {
                            named = Some(c.clone());
                        },
                        MethodKey::Channel(Literal::Other) => {
                            proof {
                                lemma_keys_error_prefix(keys@, k + 1);
                                assert(first_attr_error(orig, i as int, ArgError::UnsupportedValueType));
                            }
                            return Err(ArgError::UnsupportedValueType);
                        },
                        MethodKey::Unsupported => {
                            proof {
                                lemma_keys_error_prefix(keys@, k + 1);
                                assert(first_attr_error(orig, i as int, ArgError::UnsupportedKey));
                            }
                            return Err(ArgError::UnsupportedKey);
                        },
                    }
                    k += 1;
                }
                proof {
                    assert(keys@.take(keys@.len() as int) == keys@);
                }
                if nowait {
                    wait = false;
                }
                match named {
                    Some(c) => {
                        channel = Some(c);
                    },
                    None => {},
                }
            },
        }
        proof {
            assert forall|j: int| 0 <= j < i + 1 implies attr_error(#[trigger] next[j]) is None by {
                if j < i {
                    assert(next[j] == prefix[j]);
                }
            }
        }
        i += 1;
    }
    proof {
        assert(orig.take(n as int) == orig);
        reveal_strlit("default");
    }
    let channel = match channel {
        Some(c) => c,
        None => "default".to_owned(),
    };
    Ok((wait, channel, kept))
}

/// The names of the items generated for the type named `root`.
#[derive(Debug)]
pub struct GeneratedNames {
    pub request_enum: String,
    pub handle: String,
    pub receiver: String,
    pub handle_one_value_ref: String,
}

/// `names` are those of the items generated for the type named `root`.
pub open spec fn names_fit(root: Seq<char>, handle_name: Option<String>, names: GeneratedNames) -> bool {
    &&& names.request_enum@ == root + "Request"@
    &&& names.handle@ == match handle_name {
        Some(h) => h@,
        None => root + "Handle"@,
    }
    &&& names.receiver@ == root + "Receiver"@
    &&& names.handle_one_value_ref@ == root + "HandleOneValueRef"@
}

/// The names of the items generated for the type named `root`: the handle
/// is named by the `handle_name` argument where it is given.
pub fn generated_names(root: &str, handle_name: Option<String>) -> (r: GeneratedNames)
    ensures
        names_fit(root@, handle_name, r),
{
    let mut request_enum = root.to_owned();
    request_enum.push_str("Request");
    let handle = match handle_name {
        Some(h) => h,
        None => {
            let mut h = root.to_owned();
            h.push_str("Handle");
            h
        },
    };
    let mut receiver = root.to_owned();
    receiver.push_str("Receiver");
    let mut handle_one_value_ref = root.to_owned();
    handle_one_value_ref.push_str("HandleOneValueRef");
    GeneratedNames { request_enum, handle, receiver, handle_one_value_ref }
}

/// The name of the request field for the method argument named `arg`:
/// `arg_` and the name without one leading underscore.
pub open spec fn spec_variant_arg_name(arg: Seq<char>) -> Seq<char> {
    "arg_"@ + if arg.len() > 0 && arg[0] == '_' {
        arg.drop_first()
    } else {
        arg
    }
}

/// The name of the request field for a method argument.
pub fn variant_arg_name(arg: &str) -> (r: String)
    ensures
        r@ == spec_variant_arg_name(arg@),
{
    let mut r = "arg_".to_owned();
    let mut first = true;
    for c in it: arg.chars()
        invariant
            it.seq() == arg@,
            first == (it.index() == 0),
            r@ == "arg_"@ + if it.index() > 0 && arg@[0] == '_' {
                arg@.subrange(1, it.index() as int)
            } else {
                arg@.take(it.index() as int)
            },
    {
        if !(first && c == '_') {
            r.push(c);
        }
        proof {
            if it.index() > 0 && arg@[0] == '_' {
                assert(arg@.subrange(1, it.index() + 1) == arg@.subrange(1, it.index() as int).push(c));
            } else {
                assert(arg@.take(it.index() + 1) == arg@.take(it.index() as int).push(c));
            }
        }
        first = false;
    }
    proof {
        reveal_strlit("arg_");
        assert(arg@.take(arg@.len() as int) == arg@);
        if arg@.len() > 0 && arg@[0] == '_' {
            assert(arg@.subrange(1, arg@.len() as int) == arg@.drop_first());
        }
    }
    r
}

/// Why the type that the interface is implemented for has no name.
pub open spec fn root_error(self_type_path: Option<Vec<String>>) -> Option<ArgError> {
    match self_type_path {
        None => Some(ArgError::SelfTypeNotPath),
        Some(segments) => if segments@.len() == 0 {
            Some(ArgError::NoSegments)
        } else {
            None
        },
    }
}

/// The name of the type that the interface is implemented for: the last
/// segment of its path (`None` where the type is no path).
pub fn root_name(self_type_path: &Option<Vec<String>>) -> (r: Result<&String, ArgError>)
    ensures
        match r {
            Ok(name) => root_error(*self_type_path) is None && *name
                == self_type_path->Some_0@.last(),
            Err(e) => root_error(*self_type_path) == Some(e),
        },
{
    match self_type_path {
        None => Err(ArgError::SelfTypeNotPath),
        Some(segments) => {
            if segments.len() == 0 {
                Err(ArgError::NoSegments)
            } else {
                Ok(&segments[segments.len() - 1])
            }
        },
    }
}

/// An input of a method.
#[derive(Debug)]
pub enum MethodInput {
    /// `self`, `&self` or `&mut self`.
    Receiver,
    /// A typed argument: the name of its pattern, `None` where the pattern
    /// is no identifier.
    Typed(Option<String>),
}

/// What the interface reads of a method's signature.
#[derive(Debug)]
pub struct MethodSig {
    pub name: String,
    pub is_async: bool,
    pub has_return_type: bool,
    pub inputs: Vec<MethodInput>,
}

/// How the items generated for one method look.
#[derive(Debug)]
pub struct MethodPlan {
    /// The request variant, named as the method.
    pub variant: String,
    /// The fields of the request variant, one per typed argument.
    pub fields: Vec<String>,
    /// Whether the request carries a response channel, the handle waits
    /// for the result and returns it.
    pub response_field: bool,
    /// Whether the receiver awaits the method.
    pub awaits: bool,
    /// Whether the handle's method is `async`.
    pub handle_async: bool,
    /// The receiver's function that handles one such request.
    pub handle_one_fn: String,
    /// The receiver's function that removes one such request, where calls
    /// do not wait.
    pub remove_one_fn: Option<String>,
    /// The channel that executes the method.
    pub channel: String,
}

/// The request fields for the inputs of a method, in order.
pub open spec fn spec_fields(inputs: Seq<MethodInput>) -> Seq<Seq<char>>
    decreases inputs.len(),
{
    if inputs.len() == 0 {
        Seq::empty()
    } else {
        let before = spec_fields(inputs.drop_last());
        match inputs.last() {
            MethodInput::Typed(Some(n)) => before.push(spec_variant_arg_name(n@)),
            _ => before,
        }
    }
}

/// Whether some typed input has a pattern that is no identifier.
pub open spec fn has_unnamed_input(inputs: Seq<MethodInput>) -> bool {
    exists|i: int| 0 <= i < inputs.len() && #[trigger] inputs[i] matches MethodInput::Typed(None)
}

/// `"handle_one_"`, the method's name and `"_request"`.
pub open spec fn spec_handle_one_fn(method: Seq<char>) -> Seq<char> {
    "handle_one_"@ + method + "_request"@
}

/// `"remove_one_"`, the method's name and `"_request"`.
pub open spec fn spec_remove_one_fn(method: Seq<char>) -> Seq<char> {
    "remove_one_"@ + method + "_request"@
}

/// `prefix`, the name and `suffix`.
fn affixed(prefix: &str, name: &str, suffix: &str) -> (r: String)
    ensures
        r@ == prefix@ + name@ + suffix@,
{
    let mut r = prefix.to_owned();
    r.push_str(name);
    r.push_str(suffix);
    r
}

/// Why no items can be generated for a method with the signature `sig`.
pub open spec fn plan_error(sig: MethodSig) -> Option<ArgError> {
    if !sig.has_return_type {
        Some(ArgError::MissingReturnType)
    } else if has_unnamed_input(sig.inputs@) {
        Some(ArgError::ArgNotIdent)
    } else {
        None
    }
}

/// `plan` describes the items generated for a method with the signature
/// `sig`, whose calls wait for it or not.
pub open spec fn plan_fits(sig: MethodSig, wait: bool, channel: Seq<char>, plan: MethodPlan) -> bool {
    &&& plan.channel@ == channel
    &&& plan.variant@ == sig.name@
    &&& plan.fields@.len() == spec_fields(sig.inputs@).len()
    &&& forall|i: int|
        0 <= i < plan.fields@.len() ==> #[trigger] plan.fields@[i]@ == spec_fields(sig.inputs@)[i]
    &&& plan.response_field == wait
    &&& plan.awaits == sig.is_async
    &&& plan.handle_async == (wait && sig.is_async)
    &&& plan.handle_one_fn@ == spec_handle_one_fn(sig.name@)
    &&& match plan.remove_one_fn {
        Some(f) => !wait && f@ == spec_remove_one_fn(sig.name@),
        None => wait,
    }
}

/// Plan the items generated for a method, given whether calls wait for it
/// and the channel that executes it.
pub fn plan_method(sig: &MethodSig, wait: bool, channel: &str) -> (r: Result<MethodPlan, ArgError>)
    ensures
        match r {
            Ok(plan) => plan_error(*sig) is None && plan_fits(*sig, wait, channel@, plan),
            Err(e) => plan_error(*sig) == Some(e),
        },
{
    if !sig.has_return_type {
        return Err(ArgError::MissingReturnType);
    }
    let mut fields: Vec<String> = Vec::new();
    let mut i: usize = 0;
    while i < sig.inputs.len()
        invariant
            sig.has_return_type,
            i <= sig.inputs@.len(),
            !has_unnamed_input(sig.inputs@.take(i as int)),
            fields@.len() == spec_fields(sig.inputs@.take(i as int)).len(),
            forall|j: int|
                0 <= j < fields@.len() ==> #[trigger] fields@[j]@ == spec_fields(
                    sig.inputs@.take(i as int),
                )[j],
        decreases sig.inputs@.len() - i,
    {
        let ghost prefix = sig.inputs@.take(i as int);
        let ghost next = sig.inputs@.take(i + 1);
        proof {
            assert(next.drop_last() == prefix);
            assert(next.last() == sig.inputs@[i as int]);
        }
        match &sig.inputs[i] {
            MethodInput::Receiver => {},
            MethodInput::Typed(None) => {
                proof {
                    assert(sig.inputs@[i as int] matches MethodInput::Typed(None));
                }
                return Err(ArgError::ArgNotIdent);
            },
            MethodInput::Typed(Some(n)) => {
                let field = variant_arg_name(n.as_str());
                fields.push(field);
            },
        }
        proof {
            assert forall|j: int| 0 <= j < next.len() implies !(#[trigger] next[j] matches MethodInput::Typed(None)) by {
                if j < i {
                    assert(next[j] == prefix[j]);
                }
            }
        }
        i += 1;
    }
    proof {
        assert(sig.inputs@.take(sig.inputs@.len() as int) == sig.inputs@);
    }
    proof {
        reveal_strlit("handle_one_");
        reveal_strlit("remove_one_");
        reveal_strlit("_request");
    }
    let handle_one_fn = affixed("handle_one_", sig.name.as_str(), "_request");
    let remove_one_fn = if wait {
        None
    } else {
        Some(affixed("remove_one_", sig.name.as_str(), "_request"))
    };
    Ok(
        MethodPlan {
            variant: sig.name.clone(),
            fields,
            response_field: wait,
            awaits: sig.is_async,
            handle_async: wait && sig.is_async,
            handle_one_fn,
            remove_one_fn,
            channel: channel.to_owned(),
        },
    )
}

/// All that the interface generates for a type: the parsed arguments, the
/// names of the items and, for each method, the attributes it keeps and
/// the plan of its items.
#[derive(Debug)]
pub struct InterfacePlan<T> {
    pub args: MacroArgs,
    pub names: GeneratedNames,
    pub methods: Vec<(Vec<T>, MethodPlan)>,
}

/// The channel named `c` exists with the arguments `a`: it is `default`,
/// or one of the extra channels.
pub open spec fn channel_known(a: MacroArgs, c: Seq<char>) -> bool {
    ||| c == "default"@
    ||| a.extra_channels matches Some(v) && texts(a.extra_channels.unwrap()).contains(c)
}

/// Whether the channel `c` exists with the arguments `a`.
fn channel_exists(a: &MacroArgs, c: &str) -> (r: bool)
    ensures
        r == channel_known(*a, c@),
{
    proof {
        reveal_strlit("default");
    }
    if str_eq(c, "default") {
        return true;
    }
    match &a.extra_channels {
        None => false,
        Some(v) => {
            let mut i: usize = 0;
            while i < v.len()
                invariant
                    a.extra_channels == Some(*v),
                    i <= v@.len(),
                    c@ != "default"@,
                    forall|j: int| 0 <= j < i ==> v@[j]@ != c@,
                decreases v@.len() - i,
            {
                if str_eq(v[i].as_str(), c) {
                    proof {
                        assert(texts(*v)[i as int] == c@);
                    }
                    return true;
                }
                i += 1;
            }
            proof {
                if texts(*v).contains(c@) {
                    let j = choose|j: int| 0 <= j < texts(*v).len() && texts(*v)[j] == c@;
                    assert(v@[j]@ == c@);
                }
            }
            false
        },
    }
}

/// The method `m` (its attributes and signature) is accepted with the
/// arguments `a`.
pub open spec fn method_ok<T>(a: MacroArgs, m: (Vec<MethodAttribute<T>>, MethodSig)) -> bool {
    &&& method_attrs_ok(m.0@)
    &&& channel_known(a, method_channel(m.0@))
    &&& plan_error(m.1) is None
}

/// The method `m` is refused with the error `e`, with the arguments `a`:
/// first its attributes are checked, then its channel, then its signature.
pub open spec fn method_error<T>(a: MacroArgs, m: (Vec<MethodAttribute<T>>, MethodSig), e: ArgError) -> bool {
    ||| exists|i: int| #[trigger] first_attr_error(m.0@, i, e)
    ||| {
        &&& method_attrs_ok(m.0@)
        &&& !channel_known(a, method_channel(m.0@))
        &&& e matches ArgError::UnknownChannel(t)
        &&& e->UnknownChannel_0@ == method_channel(m.0@)
    }
    ||| method_attrs_ok(m.0@) && channel_known(a, method_channel(m.0@)) && plan_error(m.1) == Some(e)
}

/// `out` is what the method `m` gives with the arguments `a`: the
/// attributes it keeps and the plan of its items, executed by its channel.
pub open spec fn method_planned<T>(
    a: MacroArgs,
    m: (Vec<MethodAttribute<T>>, MethodSig),
    out: (Vec<T>, MethodPlan),
) -> bool {
    &&& method_ok(a, m)
    &&& out.0@ == kept_attributes(m.0@)
    &&& plan_fits(m.1, !has_nowait(m.0@), method_channel(m.0@), out.1)
}

/// Plan what the interface generates for the type whose path has the
/// segments `self_type_path` and for its `methods`, in order: first the
/// arguments, then the type's name, then each method; the first error stops
/// the plan.
pub fn plan_interface<T>(
    args: &Vec<MacroArg>,
    self_type_path: &Option<Vec<String>>,
    methods: Vec<(Vec<MethodAttribute<T>>, MethodSig)>,
) -> (r: Result<InterfacePlan<T>, ArgError>)
    ensures
        match r {
            Ok(plan) => {
                &&& args_outcome(args@, Ok(plan.args))
                &&& root_error(*self_type_path) is None
                &&& names_fit(self_type_path->Some_0@.last()@, plan.args.handle_name, plan.names)
                &&& plan.methods@.len() == methods@.len()
                &&& forall|i: int|
                    0 <= i < methods@.len() ==> method_planned(
                        plan.args,
                        #[trigger] methods@[i],
                        plan.methods@[i],
                    )
            },
            Err(e) => {
                ||| args_outcome(args@, Err(e))
                ||| (exists|a: MacroArgs| #[trigger] args_outcome(args@, Ok(a)))
                    && root_error(*self_type_path) == Some(e)
                ||| exists|a: MacroArgs|
                    #[trigger] args_outcome(args@, Ok(a)) && root_error(*self_type_path) is None
                        && exists|k: int|
                        0 <= k < methods@.len() && (forall|j: int|
                            0 <= j < k ==> method_ok(a, #[trigger] methods@[j])) && method_error(
                            a,
                            #[trigger] methods@[k],
                            e,
                        )
            },
        },
{
    let parsed = match parse_args(args) {
        Ok(a) => a,
        Err(e) => return Err(e),
    };
    let root = match root_name(self_type_path) {
        Ok(name) => name,
        Err(e) => return Err(e),
    };
    let handle_name = match &parsed.handle_name {
        Some(h) => Some(h.clone()),
        None => None,
    };
    let names = generated_names(root.as_str(), handle_name);
    let ghost orig = methods@;
    let n = methods.len();
    let mut rest = methods;
    let mut planned: Vec<(Vec<T>, MethodPlan)> = Vec::new();
    let mut i: usize = 0;
    while i < n
        invariant
            orig == methods@,
            n == orig.len(),
            i <= n,
            rest@ == orig.skip(i as int),
            args_outcome(args@, Ok(parsed)),
            root_error(*self_type_path) is None,
            planned@.len() == i,
            forall|j: int| 0 <= j < i ==> method_planned(parsed, #[trigger] orig[j], planned@[j]),
        decreases n - i,
    {
        let (attrs, sig) = rest.remove(0);
        proof {
            assert((attrs, sig) == orig[i as int]);
            assert(rest@ == orig.skip(i + 1));
        }
        let ghost attrs_view = attrs@;
        let (wait, channel, kept) = match extract_method_args(attrs) {
            Ok(x) => x,
            Err(e) => {
                proof {
                    let k: int = choose|k: int| #[trigger] first_attr_error(attrs_view, k, e);
                    assert(method_error(parsed, orig[i as int], e));
                    assert(forall|j: int| 0 <= j < i ==> method_ok(parsed, #[trigger] orig[j]));
                }
                return Err(e);
            },
        };
        if !channel_exists(&parsed, channel.as_str()) {
            proof {
                assert(method_error(parsed, orig[i as int], ArgError::UnknownChannel(channel)));
                assert(forall|j: int| 0 <= j < i ==> method_ok(parsed, #[trigger] orig[j]));
            }
            return Err(ArgError::UnknownChannel(channel));
        }
        let plan = match plan_method(&sig, wait, channel.as_str()) {
            Ok(p) => p,
            Err(e) => {
                proof {
                    assert(method_error(parsed, orig[i as int], e));
                    assert(forall|j: int| 0 <= j < i ==> method_ok(parsed, #[trigger] orig[j]));
                }
                return Err(e);
            },
        };
        planned.push((kept, plan));
        proof {
            assert(method_planned(parsed, orig[i as int], planned@[i as int]));
            assert forall|j: int| 0 <= j < i + 1 implies method_planned(
                parsed,
                #[trigger] orig[j],
                planned@[j],
            ) by {}
        }
        i += 1;
    }
    Ok(InterfacePlan { args: parsed, names, methods: planned })
}

} // verus!
