//! Functions common for all target languages: the attribute classifier, the
//! function-signature analyzer, the multi-file output accumulator, and the
//! backend contract every target-language emitter implements.

use vstd::prelude::*;
use vstd::string::StringExecFns;
use crate::ast::{
    Abi, ArgCaptured, Attribute, BareFnArg, Expr, ExprLit, FnArg, ItemConst, ItemEnum, ItemFn,
    ItemStruct, ItemType, Lit, Meta, NestedMeta, Pat, PatIdent, TypeRef, Variant,
};
use crate::errors::{Error, Level};
use crate::text::{ends_with, str_ends_with, str_eq};

verus! {

/// Whether a module filter names the modules to skip or the modules to keep.
#[derive(Debug, Copy, Clone, PartialEq, Eq, Structural)]
pub enum FilterMode {
    Blacklist,
    Whitelist,
}

// ---------------------------------------------------------------------------
// Output accumulator
// ---------------------------------------------------------------------------

/// The keys of an entry list are pairwise distinct.
pub open spec fn keys_distinct(entries: Seq<(String, String)>) -> bool {
    forall|i: int, j: int|
        0 <= i < j < entries.len() ==> entries[i].0@ != entries[j].0@
}

/// The mapping an entry list denotes.
spec fn map_of(entries: Seq<(String, String)>) -> Map<Seq<char>, Seq<char>>
    decreases entries.len(),
{
    if entries.len() == 0 {
        Map::empty()
    } else {
        map_of(entries.drop_last()).insert(entries.last().0@, entries.last().1@)
    }
}

/// Accumulates several output files during one run: a mapping from output
/// file identifier to the text generated for it so far. Abstractly a map
/// from file name to content; appends to one file concatenate in call order.
pub struct Outputs {
    entries: Vec<(String, String)>,
}

impl View for Outputs {
    type V = Map<Seq<char>, Seq<char>>;

    closed spec fn view(&self) -> Map<Seq<char>, Seq<char>> {
        map_of(self.entries@)
    }
}

/// What one append does to the accumulated mapping: create the key, or
/// concatenate after the existing content.
pub open spec fn spec_append(
    m: Map<Seq<char>, Seq<char>>,
    file: Seq<char>,
    text: Seq<char>,
) -> Map<Seq<char>, Seq<char>> {
    if m.contains_key(file) {
        m.insert(file, m[file] + text)
    } else {
        m.insert(file, text)
    }
}

proof fn lemma_map_of_contains(entries: Seq<(String, String)>, k: Seq<char>)
    ensures
        map_of(entries).contains_key(k) <==> exists|i: int|
            0 <= i < entries.len() && entries[i].0@ == k,
    decreases entries.len(),
{
    if entries.len() > 0 {
        lemma_map_of_contains(entries.drop_last(), k);
        if entries.last().0@ == k {
            assert(entries[entries.len() - 1].0@ == k);
        } else {
            if exists|i: int| 0 <= i < entries.drop_last().len() && entries.drop_last()[i].0@ == k {
                let i = choose|i: int|
                    0 <= i < entries.drop_last().len() && entries.drop_last()[i].0@ == k;
                assert(entries[i].0@ == k);
            }
            if exists|i: int| 0 <= i < entries.len() && entries[i].0@ == k {
                let i = choose|i: int| 0 <= i < entries.len() && entries[i].0@ == k;
                assert(i < entries.len() - 1);
                assert(entries.drop_last()[i].0@ == k);
            }
        }
    }
}

proof fn lemma_map_of_get(entries: Seq<(String, String)>, i: int)
    requires
        keys_distinct(entries),
        0 <= i < entries.len(),
    ensures
        map_of(entries).contains_key(entries[i].0@),
        map_of(entries)[entries[i].0@] == entries[i].1@,
    decreases entries.len(),
{
    if i < entries.len() - 1 {
        assert(keys_distinct(entries.drop_last()));
        assert(entries.drop_last()[i] == entries[i]);
        lemma_map_of_get(entries.drop_last(), i);
        assert(entries.last().0@ != entries[i].0@);
    }
}

proof fn lemma_map_of_update(entries: Seq<(String, String)>, i: int, p: (String, String))
    requires
        keys_distinct(entries),
        0 <= i < entries.len(),
        p.0@ == entries[i].0@,
    ensures
        map_of(entries.update(i, p)) == map_of(entries).insert(p.0@, p.1@),
    decreases entries.len(),
{
    let updated = entries.update(i, p);
    if i == entries.len() - 1 {
        assert(updated.drop_last() =~= entries.drop_last());
        assert(updated.last() == p);
        assert(map_of(updated) == map_of(entries.drop_last()).insert(p.0@, p.1@));
        assert(map_of(entries.drop_last()).insert(entries.last().0@, entries.last().1@).insert(
            p.0@,
            p.1@,
        ) =~= map_of(entries.drop_last()).insert(p.0@, p.1@));
    } else {
        assert(keys_distinct(entries.drop_last()));
        assert(entries.drop_last()[i] == entries[i]);
        lemma_map_of_update(entries.drop_last(), i, p);
        assert(updated.drop_last() =~= entries.drop_last().update(i, p));
        assert(updated.last() == entries.last());
        assert(entries.last().0@ != p.0@);
        assert(map_of(updated) == map_of(entries.drop_last()).insert(p.0@, p.1@).insert(
            entries.last().0@,
            entries.last().1@,
        ));
        assert(map_of(entries.drop_last()).insert(p.0@, p.1@).insert(
            entries.last().0@,
            entries.last().1@,
        ) =~= map_of(entries.drop_last()).insert(entries.last().0@, entries.last().1@).insert(
            p.0@,
            p.1@,
        ));
    }
}

impl Outputs {
    /// The entry list never holds the same file name twice.
    pub closed spec fn wf(self) -> bool {
        keys_distinct(self.entries@)
    }

    /// A fresh, empty accumulator.
    pub fn new() -> (r: Outputs)
        ensures
            r@ == Map::<Seq<char>, Seq<char>>::empty(),
            r.wf(),
    {
        Outputs { entries: Vec::new() }
    }

    fn find_index(&self, file: &str) -> (r: Option<usize>)
        ensures
            match r {
                Some(i) => i < self.entries@.len() && self.entries@[i as int].0@ == file@,
                None => forall|j: int|
                    0 <= j < self.entries@.len() ==> self.entries@[j].0@ != file@,
            },
    {
        let n = self.entries.len();
        let mut i: usize = 0;
        while i < n
            invariant
                i <= n,
                n == self.entries@.len(),
                forall|j: int| 0 <= j < i ==> self.entries@[j].0@ != file@,
            decreases n - i,
        {
            if str_eq(self.entries[i].0.as_str(), file) {
                return Some(i);
            }
            i += 1;
        }
        None
    }

    /// The accumulated content of one output file, if the file exists.
    pub fn get<'a>(&'a self, file: &str) -> (r: Option<&'a String>)
        requires
            self.wf(),
        ensures
            match r {
                Some(s) => self@.contains_key(file@) && s@ == self@[file@],
                None => !self@.contains_key(file@),
            },
    {
        let idx = self.find_index(file);
        match idx {
            Some(i) => {
                proof {
                    lemma_map_of_get(self.entries@, i as int);
                }
                Some(&self.entries[i].1)
            }
            None => {
                proof {
                    lemma_map_of_contains(self.entries@, file@);
                }
                None
            }
        }
    }
}

/// Append to an output file, or create it: the sole write path into
/// [`Outputs`]. If `file` is absent it is inserted mapped to `text`; if
/// present, `text` is concatenated after its existing content.
pub fn append_output(text: String, file: &str, o: &mut Outputs)
    requires
        old(o).wf(),
    ensures
        final(o).wf(),
        final(o)@ == spec_append(old(o)@, file@, text@),
{
    let idx = o.find_index(file);
    match idx {
        Some(i) => {
            let ghost e0 = o.entries@;
            let pair = o.entries.remove(i);
            let (k, mut v) = pair;
            v.append(text.as_str());
            let ghost kk = k;
            let ghost vv = v;
            o.entries.insert(i, (k, v));
            proof {
                assert(o.entries@ =~= e0.update(i as int, (kk, vv)));
                assert(keys_distinct(o.entries@));
                lemma_map_of_get(e0, i as int);
                lemma_map_of_update(e0, i as int, (kk, vv));
            }
        }
        None => {
            let ghost e0 = o.entries@;
            o.entries.push((file.to_owned(), text));
            proof {
                assert(o.entries@.drop_last() =~= e0);
                assert(keys_distinct(o.entries@));
                lemma_map_of_contains(e0, file@);
            }
        }
    }
}

/// Law: appending `x` then `y` to a fresh file key yields exactly `x + y`
/// under that key, and appends to one key never touch any other key.
pub proof fn lemma_output_round_trip(
    m: Map<Seq<char>, Seq<char>>,
    k: Seq<char>,
    x: Seq<char>,
    y: Seq<char>,
    k2: Seq<char>,
)
    requires
        !m.contains_key(k),
    ensures
        spec_append(spec_append(m, k, x), k, y).contains_key(k),
        spec_append(spec_append(m, k, x), k, y)[k] == x + y,
        k2 != k ==> spec_append(spec_append(m, k, x), k, y).contains_key(k2) == m.contains_key(k2),
        k2 != k && m.contains_key(k2) ==> spec_append(spec_append(m, k, x), k, y)[k2] == m[k2],
{
}

// ---------------------------------------------------------------------------
// Attribute classification
// ---------------------------------------------------------------------------

/// The attribute is `#[no_mangle]`: its path textually equals `no_mangle`.
pub open spec fn spec_check_no_mangle(attr: Attribute) -> bool {
    attr.path@ == "no_mangle"@
}

/// The attribute is `#[repr(C)]`: path `repr`, and the first entry of its
/// argument list is a bare meta item named `C`.
pub open spec fn spec_check_repr_c(attr: Attribute) -> bool {
    &&& attr.path@ == "repr"@
    &&& match attr.meta {
        Meta::List { nested } => nested.len() > 0 && match nested[0] {
            NestedMeta::Meta { name } => name@ == "C"@,
            _ => false,
        },
        _ => false,
    }
}

/// A documentation attribute whose value is not a string literal: a
/// contract violation in the upstream tree.
pub open spec fn spec_doc_attr_bad(attr: Attribute) -> bool {
    match attr.meta {
        Meta::NameValue { lit } => attr.path@ == "doc"@ && !(lit matches Lit::Str(_)),
        _ => false,
    }
}

/// The docstring a documentation attribute contributes, prefixed with `///`
/// and the given indentation; `None` for any other attribute.
pub open spec fn spec_retrieve_doc(prepend: Seq<char>, attr: Attribute) -> Option<Seq<char>> {
    match attr.meta {
        Meta::NameValue { lit: Lit::Str(text) } => if attr.path@ == "doc"@ {
            Some("///"@ + prepend + text@)
        } else {
            None
        },
        _ => None,
    }
}

/// Which canned attribute criterion `parse_attr` tests each attribute
/// against.
#[derive(Debug, Copy, Clone, PartialEq, Eq, Structural)]
pub enum AttrCheck {
    /// recognize `#[repr(C)]`
    ReprC,
    /// recognize `#[no_mangle]`
    NoMangle,
    /// check nothing; the boolean result stays false
    Nothing,
}

/// Which string `parse_attr` retrieves from each attribute.
#[derive(Debug, Clone, PartialEq, Eq)]
pub enum AttrRetrieve {
    /// retrieve docstrings, each indented by `prepend`
    Docstring { prepend: String },
    /// retrieve nothing; the string result stays empty
    Nothing,
}

/// Whether one attribute satisfies the selected criterion.
pub open spec fn attr_check_holds(check: AttrCheck, attr: Attribute) -> bool {
    match check {
        AttrCheck::ReprC => spec_check_repr_c(attr),
        AttrCheck::NoMangle => spec_check_no_mangle(attr),
        AttrCheck::Nothing => false,
    }
}

/// What the selected retrieval yields from one attribute.
pub open spec fn attr_retrieved(retrieve: AttrRetrieve, attr: Attribute) -> Option<Seq<char>> {
    match retrieve {
        AttrRetrieve::Docstring { prepend } => spec_retrieve_doc(prepend@, attr),
        AttrRetrieve::Nothing => None,
    }
}

/// The selected retrieval fails fast on this attribute.
pub open spec fn attr_retrieve_fails(retrieve: AttrRetrieve, attr: Attribute) -> bool {
    retrieve matches AttrRetrieve::Docstring { .. } && spec_doc_attr_bad(attr)
}

/// At least one attribute of the list satisfies the criterion, independent
/// of its position.
pub open spec fn check_any(check: AttrCheck, attrs: Seq<Attribute>) -> bool {
    exists|i: int| 0 <= i < attrs.len() && attr_check_holds(check, attrs[i])
}

/// The concatenation, in attribute order, of everything the retrieval
/// yields across the list.
pub open spec fn retrieved_concat(retrieve: AttrRetrieve, attrs: Seq<Attribute>) -> Seq<char>
    decreases attrs.len(),
{
    if attrs.len() == 0 {
        Seq::empty()
    } else {
        retrieved_concat(retrieve, attrs.drop_last()) + match attr_retrieved(
            retrieve,
            attrs.last(),
        ) {
            Some(s) => s,
            None => Seq::empty(),
        }
    }
}

proof fn lemma_check_any_push(check: AttrCheck, s: Seq<Attribute>, a: Attribute)
    ensures
        check_any(check, s.push(a)) == (check_any(check, s) || attr_check_holds(check, a)),
{
    if check_any(check, s) {
        let i = choose|i: int| 0 <= i < s.len() && attr_check_holds(check, s[i]);
        assert(s.push(a)[i] == s[i]);
        assert(check_any(check, s.push(a)));
    }
    if attr_check_holds(check, a) {
        assert(s.push(a)[s.len() as int] == a);
        assert(check_any(check, s.push(a)));
    }
    if check_any(check, s.push(a)) && !attr_check_holds(check, a) {
        let i = choose|i: int| 0 <= i < s.push(a).len() && attr_check_holds(check, s.push(a)[i]);
        assert(i < s.len());
        assert(s.push(a)[i] == s[i]);
        assert(check_any(check, s));
    }
}

proof fn lemma_retrieved_concat_push(retrieve: AttrRetrieve, s: Seq<Attribute>, a: Attribute)
    ensures
        retrieved_concat(retrieve, s.push(a)) == retrieved_concat(retrieve, s) + match attr_retrieved(
            retrieve,
            a,
        ) {
            Some(t) => t,
            None => Seq::empty(),
        },
{
    assert(s.push(a).drop_last() =~= s);
    assert(s.push(a).last() == a);
}

/// Check the attribute is `#[no_mangle]`.
pub fn check_no_mangle(attr: &Attribute) -> (r: bool)
    ensures
        r == spec_check_no_mangle(*attr),
{
    str_eq(attr.path.as_str(), "no_mangle")
}

/// Check the attribute is `#[repr(C)]`.
pub fn check_repr_c(attr: &Attribute) -> (r: bool)
    ensures
        r == spec_check_repr_c(*attr),
{
    if !str_eq(attr.path.as_str(), "repr") {
        return false;
    }
    match &attr.meta {
        Meta::List { nested } => {
            if nested.len() == 0 {
                false
            } else {
                match &nested[0] {
                    NestedMeta::Meta { name } => str_eq(name.as_str(), "C"),
                    _ => false,
                }
            }
        }
        _ => false,
    }
}

/// If the attribute is a docstring, indent it the required amount and return
/// it. A documentation value that is not a string literal violates the
/// upstream contract and is reported as a `Bug`-level diagnostic, never
/// silently ignored.
pub fn retrieve_docstring(attr: &Attribute, prepend: &str) -> (r: Result<Option<String>, Error>)
    ensures
        match r {
            Ok(opt) => !spec_doc_attr_bad(*attr) && match opt {
                Some(s) => spec_retrieve_doc(prepend@, *attr) == Some(s@),
                None => spec_retrieve_doc(prepend@, *attr) is None,
            },
            Err(e) => spec_doc_attr_bad(*attr) && e.level == Level::Bug,
        },
{
    if !str_eq(attr.path.as_str(), "doc") {
        return Ok(None);
    }
    match &attr.meta {
        Meta::NameValue { lit } => match lit {
            Lit::Str(text) => Ok(Some("///".to_owned().concat(prepend).concat(text.as_str()))),
            _ => Err(
                Error {
                    level: Level::Bug,
                    span: None,
                    message: "docs must be literal strings".to_owned(),
                },
            ),
        },
        _ => Ok(None),
    }
}

/// Check that at least one attribute matches some criterion (usually
/// `#[repr(C)]` or `#[no_mangle]`) and optionally retrieve a string from
/// every attribute that yields one (usually docstrings), in attribute order.
/// The criterion result is OR'd monotonically across the list; once some
/// attribute passes, the result stays true.
pub fn parse_attr(attrs: &Vec<Attribute>, check: AttrCheck, retrieve: &AttrRetrieve) -> (r: Result<
    (bool, String),
    Error,
>)
    ensures
        match r {
            Ok(res) => {
                &&& forall|i: int|
                    0 <= i < attrs@.len() ==> !attr_retrieve_fails(*retrieve, attrs@[i])
                &&& res.0 == check_any(check, attrs@)
                &&& res.1@ == retrieved_concat(*retrieve, attrs@)
            },
            Err(e) => {
                &&& exists|i: int|
                    0 <= i < attrs@.len() && attr_retrieve_fails(*retrieve, attrs@[i])
                &&& e.level == Level::Bug
            },
        },
{
    let mut check_passed = false;
    let mut retrieved_str = String::new();
    let n = attrs.len();
    let mut idx: usize = 0;
    while idx < n
        invariant
            idx <= n,
            n == attrs@.len(),
            check_passed == check_any(check, attrs@.subrange(0, idx as int)),
            retrieved_str@ == retrieved_concat(*retrieve, attrs@.subrange(0, idx as int)),
            forall|i: int| 0 <= i < idx ==> !attr_retrieve_fails(*retrieve, attrs@[i]),
        decreases n - idx,
    {
        let attr = &attrs[idx];
        // Don't want to accidentally reset it to false after it's been true.
        if !check_passed {
            check_passed = match check {
                AttrCheck::ReprC => check_repr_c(attr),
                AttrCheck::NoMangle => check_no_mangle(attr),
                AttrCheck::Nothing => false,
            };
        }
        let step: Result<Option<String>, Error> = match retrieve {
            AttrRetrieve::Docstring { prepend } => retrieve_docstring(attr, prepend.as_str()),
            AttrRetrieve::Nothing => Ok(None),
        };
        match step {
            Ok(Some(s)) => {
                retrieved_str.append(s.as_str());
            }
            Ok(None) => {}
            Err(e) => {
                return Err(e);
            }
        }
        proof {
            assert(attrs@.subrange(0, idx + 1) =~= attrs@.subrange(0, idx as int).push(
                attrs@[idx as int],
            ));
            lemma_check_any_push(check, attrs@.subrange(0, idx as int), attrs@[idx as int]);
            lemma_retrieved_concat_push(
                *retrieve,
                attrs@.subrange(0, idx as int),
                attrs@[idx as int],
            );
        }
        idx += 1;
    }
    proof {
        assert(attrs@.subrange(0, n as int) =~= attrs@);
    }
    Ok((check_passed, retrieved_str))
}

// ---------------------------------------------------------------------------
// Calling convention
// ---------------------------------------------------------------------------

/// The calling-convention strings compatible with C.
pub open spec fn spec_is_c_abi(name: Seq<char>) -> bool {
    ||| name == "C"@
    ||| name == "Cdecl"@
    ||| name == "Stdcall"@
    ||| name == "Fastcall"@
    ||| name == "System"@
}

/// The declared linkage is C-compatible; an absent calling-convention
/// string is not.
pub open spec fn spec_is_extern(abi: Abi) -> bool {
    match abi.name {
        Some(n) => spec_is_c_abi(n@),
        None => false,
    }
}

/// Returns whether the calling convention of the function is compatible
/// with C (i.e. `extern "C"`).
pub fn is_extern(abi: &Abi) -> (r: bool)
    ensures
        r == spec_is_extern(*abi),
{
    match &abi.name {
        Some(n) => {
            let s = n.as_str();
            str_eq(s, "C") || str_eq(s, "Cdecl") || str_eq(s, "Stdcall") || str_eq(s, "Fastcall")
                || str_eq(s, "System")
        }
        None => false,
    }
}

// ---------------------------------------------------------------------------
// Argument shapes
// ---------------------------------------------------------------------------

/// The name an argument pattern binds, if it is a plain identifier.
pub open spec fn spec_pat_name(pat: Pat) -> Option<Seq<char>> {
    match pat {
        Pat::Ident(pi) => Some(pi.ident@),
        Pat::Other => None,
    }
}

/// The type is `*mut c_void`.
pub open spec fn spec_is_mut_void_ptr(ty: TypeRef) -> bool {
    match ty {
        TypeRef::Ptr { mutable, elem } => mutable && match *elem {
            TypeRef::Path { name } => name@ == "c_void"@,
            _ => false,
        },
        _ => false,
    }
}

/// The type is `*const FfiResult`.
pub open spec fn spec_is_const_ffi_result_ptr(ty: TypeRef) -> bool {
    match ty {
        TypeRef::Ptr { mutable, elem } => !mutable && match *elem {
            TypeRef::Path { name } => name@ == "FfiResult"@,
            _ => false,
        },
        _ => false,
    }
}

fn is_mut_void_ptr(ty: &TypeRef) -> (r: bool)
    ensures
        r == spec_is_mut_void_ptr(*ty),
{
    match ty {
        TypeRef::Ptr { mutable, elem } => *mutable && (match &**elem {
            TypeRef::Path { name } => str_eq(name.as_str(), "c_void"),
            _ => false,
        }),
        _ => false,
    }
}

fn is_const_ffi_result_ptr(ty: &TypeRef) -> (r: bool)
    ensures
        r == spec_is_const_ffi_result_ptr(*ty),
{
    match ty {
        TypeRef::Ptr { mutable, elem } => !*mutable && (match &**elem {
            TypeRef::Path { name } => str_eq(name.as_str(), "FfiResult"),
            _ => false,
        }),
        _ => false,
    }
}

/// The argument is the conventional opaque callback context
/// `user_data: *mut c_void`, recognized purely by name and type.
pub open spec fn spec_is_user_data(arg: ArgCaptured) -> bool {
    spec_pat_name(arg.pat) == Some("user_data"@) && spec_is_mut_void_ptr(arg.ty)
}

/// The argument is the conventional out-parameter
/// `result: *const FfiResult`, recognized purely by name and type.
pub open spec fn spec_is_result(arg: ArgCaptured) -> bool {
    spec_pat_name(arg.pat) == Some("result"@) && spec_is_const_ffi_result_ptr(arg.ty)
}

/// Same as [`spec_is_user_data`], over a bare-function-type argument; an
/// unnamed argument is never a user-data argument.
pub open spec fn spec_is_user_data_barefn(arg: BareFnArg) -> bool {
    match arg.name {
        Some(n) => n@ == "user_data"@ && spec_is_mut_void_ptr(arg.ty),
        None => false,
    }
}

/// Same as [`spec_is_result`], over a bare-function-type argument; an
/// unnamed argument is never a result argument.
pub open spec fn spec_is_result_barefn(arg: BareFnArg) -> bool {
    match arg.name {
        Some(n) => n@ == "result"@ && spec_is_const_ffi_result_ptr(arg.ty),
        None => false,
    }
}

/// The argument is a length argument: type exactly `usize`, and a name that
/// ends with `_len` or equals `len` or `size`.
pub open spec fn spec_is_ptr_len(ty: TypeRef, name: Seq<char>) -> bool {
    &&& ty matches TypeRef::Path { name: t } && t@ == "usize"@
    &&& (ends_with(name, "_len"@) || name == "len"@ || name == "size"@)
}

/// The argument heads an array+length pair: a pointer argument, itself not
/// a result pointer, whose immediate successor is a length argument. The
/// last argument of a list can never be an array head.
pub open spec fn spec_is_array(arg: ArgCaptured, next_arg: Option<ArgCaptured>) -> bool {
    &&& arg.ty matches TypeRef::Ptr { .. }
    &&& !spec_is_result(arg)
    &&& match next_arg {
        Some(next) => match spec_pat_name(next.pat) {
            Some(n) => spec_is_ptr_len(next.ty, n),
            None => false,
        },
        None => false,
    }
}

/// Same as [`spec_is_array`], over bare-function-type arguments.
pub open spec fn spec_is_array_barefn(arg: BareFnArg, next_arg: Option<BareFnArg>) -> bool {
    &&& arg.ty matches TypeRef::Ptr { .. }
    &&& !spec_is_result_barefn(arg)
    &&& match next_arg {
        Some(next) => match next.name {
            Some(n) => spec_is_ptr_len(next.ty, n@),
            None => false,
        },
        None => false,
    }
}

/// The captured argument behind a function-argument entry, if any.
pub fn transform_fnarg_to_argcap(fnarg: &FnArg) -> (r: Option<&ArgCaptured>)
    ensures
        match *fnarg {
            FnArg::Captured(c) => (r matches Some(a) && *a == c),
            FnArg::Other => r is None,
        },
{
    match fnarg {
        FnArg::Captured(argcap) => Some(argcap),
        FnArg::Other => None,
    }
}

/// The captured argument behind an optional function-argument entry, if any.
pub fn transform_fnarg_to_argcap_option(fnarg: Option<&FnArg>) -> (r: Option<&ArgCaptured>)
    ensures
        match fnarg {
            Some(f) => match *f {
                FnArg::Captured(c) => (r matches Some(a) && *a == c),
                FnArg::Other => r is None,
            },
            None => r is None,
        },
{
    match fnarg {
        Some(f) => transform_fnarg_to_argcap(f),
        None => None,
    }
}

/// The identifier pattern behind an argument pattern, if it is one.
pub fn take_out_pat(argcappat: &Pat) -> (r: Option<&PatIdent>)
    ensures
        match *argcappat {
            Pat::Ident(pi) => (r matches Some(p) && *p == pi),
            Pat::Other => r is None,
        },
{
    match argcappat {
        Pat::Ident(pat) => Some(pat),
        Pat::Other => None,
    }
}

/// The innermost named type under any number of pointer layers.
pub open spec fn spec_type_base_ident(ty: TypeRef) -> Option<Seq<char>>
    decreases ty,
{
    match ty {
        TypeRef::Ptr { mutable: _, elem } => spec_type_base_ident(*elem),
        TypeRef::Path { name } => Some(name@),
        TypeRef::Other => None,
    }
}

/// Strip pointer layers and return the innermost named type's identifier;
/// non-pointer, non-named types yield no identifier.
pub fn take_out_ident_from_type(typ: &TypeRef) -> (r: Option<String>)
    ensures
        match r {
            Some(s) => spec_type_base_ident(*typ) == Some(s@),
            None => spec_type_base_ident(*typ) is None,
        },
    decreases *typ,
{
    match typ {
        TypeRef::Ptr { mutable: _, elem } => take_out_ident_from_type(elem),
        TypeRef::Path { name } => Some(name.clone()),
        TypeRef::Other => None,
    }
}

/// Check the function argument is `user_data: *mut c_void`.
pub fn is_user_data_arg(arg: &ArgCaptured) -> (r: bool)
    ensures
        r == spec_is_user_data(*arg),
{
    match &arg.pat {
        Pat::Ident(pi) => {
            if !str_eq(pi.ident.as_str(), "user_data") {
                return false;
            }
        }
        Pat::Other => {
            return false;
        }
    }
    is_mut_void_ptr(&arg.ty)
}

/// Check the bare-function-type argument is `user_data: *mut c_void`.
pub fn is_user_data_arg_barefn(arg: &BareFnArg) -> (r: bool)
    ensures
        r == spec_is_user_data_barefn(*arg),
{
    match &arg.name {
        Some(n) => {
            if !str_eq(n.as_str(), "user_data") {
                return false;
            }
        }
        None => {
            return false;
        }
    }
    is_mut_void_ptr(&arg.ty)
}

/// Check the function argument is `result: *const FfiResult`.
pub fn is_result_arg(arg: &ArgCaptured) -> (r: bool)
    ensures
        r == spec_is_result(*arg),
{
    match &arg.pat {
        Pat::Ident(pi) => {
            if !str_eq(pi.ident.as_str(), "result") {
                return false;
            }
        }
        Pat::Other => {
            return false;
        }
    }
    is_const_ffi_result_ptr(&arg.ty)
}

/// Check the bare-function-type argument is `result: *const FfiResult`.
pub fn is_result_arg_barefn(arg: &BareFnArg) -> (r: bool)
    ensures
        r == spec_is_result_barefn(*arg),
{
    match &arg.name {
        Some(n) => {
            if !str_eq(n.as_str(), "result") {
                return false;
            }
        }
        None => {
            return false;
        }
    }
    is_const_ffi_result_ptr(&arg.ty)
}

/// Check the function argument is a length argument for an array pointer.
pub fn is_ptr_len_arg(ty: &TypeRef, arg_name: &str) -> (r: bool)
    ensures
        r == spec_is_ptr_len(*ty, arg_name@),
{
    let type_is_usize = match ty {
        TypeRef::Path { name } => str_eq(name.as_str(), "usize"),
        _ => false,
    };
    type_is_usize && (str_ends_with(arg_name, "_len") || str_eq(arg_name, "len") || str_eq(
        arg_name,
        "size",
    ))
}

/// Detect array pointers, so the length argument can be skipped — e.g. for
/// `ptr: *const u8, ptr_len: usize` the `ptr_len` part carries no value of
/// its own. A result pointer is never an array head, even when a
/// length-shaped argument follows it.
pub fn is_array_arg(arg: &ArgCaptured, next_arg: Option<&ArgCaptured>) -> (r: bool)
    ensures
        r == spec_is_array(
            *arg,
            match next_arg {
                Some(a) => Some(*a),
                None => None,
            },
        ),
{
    match &arg.ty {
        TypeRef::Ptr { .. } => {}
        _ => {
            return false;
        }
    }
    if is_result_arg(arg) {
        return false;
    }
    match next_arg {
        Some(next) => match &next.pat {
            Pat::Ident(pi) => is_ptr_len_arg(&next.ty, pi.ident.as_str()),
            Pat::Other => false,
        },
        None => false,
    }
}

/// Same as [`is_array_arg`], over bare-function-type arguments; an unnamed
/// successor is never a length argument.
pub fn is_array_arg_barefn(arg: &BareFnArg, next_arg: Option<&BareFnArg>) -> (r: bool)
    ensures
        r == spec_is_array_barefn(
            *arg,
            match next_arg {
                Some(a) => Some(*a),
                None => None,
            },
        ),
{
    match &arg.ty {
        TypeRef::Ptr { .. } => {}
        _ => {
            return false;
        }
    }
    if is_result_arg_barefn(arg) {
        return false;
    }
    match next_arg {
        Some(next) => match &next.name {
            Some(n) => is_ptr_len_arg(&next.ty, n.as_str()),
            None => false,
        },
        None => false,
    }
}

// ---------------------------------------------------------------------------
// Whole-signature classification
// ---------------------------------------------------------------------------

/// The semantic role of one function argument, derived on demand from
/// names, types and positions; never stored.
#[derive(Debug, Copy, Clone, PartialEq, Eq, Structural)]
pub enum ArgumentRole {
    /// the opaque callback-context pointer `user_data: *mut c_void`
    UserData,
    /// the out-parameter `result: *const FfiResult`
    ResultPointer,
    /// the pointer half of an array+length pair; carries the position of
    /// its length argument
    ArrayHead(usize),
    /// the length half of an array+length pair
    ArrayLength,
    /// any other argument
    Plain,
}

/// The roles of the arguments from position `i` on: user-data and result
/// arguments by name and type, then array heads by one-argument lookahead
/// (consuming their length argument), and everything else plain.
pub open spec fn spec_roles_from(args: Seq<ArgCaptured>, i: int) -> Seq<ArgumentRole>
    decreases args.len() - i,
{
    if i < 0 || i >= args.len() {
        Seq::empty()
    } else if spec_is_user_data(args[i]) {
        seq![ArgumentRole::UserData] + spec_roles_from(args, i + 1)
    } else if spec_is_result(args[i]) {
        seq![ArgumentRole::ResultPointer] + spec_roles_from(args, i + 1)
    } else if i + 1 < args.len() && spec_is_array(args[i], Some(args[i + 1])) {
        seq![ArgumentRole::ArrayHead((i + 1) as usize), ArgumentRole::ArrayLength]
            + spec_roles_from(args, i + 2)
    } else {
        seq![ArgumentRole::Plain] + spec_roles_from(args, i + 1)
    }
}

/// Classify every argument of a function's argument list, in order:
/// strictly positional, head-then-length only.
pub fn classify_args(args: &Vec<ArgCaptured>) -> (r: Vec<ArgumentRole>)
    ensures
        r@ == spec_roles_from(args@, 0),
{
    let mut roles: Vec<ArgumentRole> = Vec::new();
    let n = args.len();
    let mut i: usize = 0;
    while i < n
        invariant
            i <= n,
            n == args@.len(),
            spec_roles_from(args@, 0) == roles@ + spec_roles_from(args@, i as int),
        decreases n - i,
    {
        let ghost prev = roles@;
        let arg = &args[i];
        if is_user_data_arg(arg) {
            roles.push(ArgumentRole::UserData);
            proof {
                let rest = spec_roles_from(args@, i + 1);
                assert(prev + (seq![ArgumentRole::UserData] + rest) =~= prev.push(
                    ArgumentRole::UserData,
                ) + rest);
            }
            i += 1;
        } else if is_result_arg(arg) {
            roles.push(ArgumentRole::ResultPointer);
            proof {
                let rest = spec_roles_from(args@, i + 1);
                assert(prev + (seq![ArgumentRole::ResultPointer] + rest) =~= prev.push(
                    ArgumentRole::ResultPointer,
                ) + rest);
            }
            i += 1;
        } else if i + 1 < n && is_array_arg(arg, Some(&args[i + 1])) {
            roles.push(ArgumentRole::ArrayHead(i + 1));
            roles.push(ArgumentRole::ArrayLength);
            proof {
                let rest = spec_roles_from(args@, i + 2);
                assert(prev + (seq![
                    ArgumentRole::ArrayHead((i + 1) as usize),
                    ArgumentRole::ArrayLength,
                ] + rest) =~= prev.push(ArgumentRole::ArrayHead((i + 1) as usize)).push(
                    ArgumentRole::ArrayLength,
                ) + rest);
            }
            i += 2;
        } else {
            roles.push(ArgumentRole::Plain);
            proof {
                let rest = spec_roles_from(args@, i + 1);
                assert(prev + (seq![ArgumentRole::Plain] + rest) =~= prev.push(ArgumentRole::Plain)
                    + rest);
            }
            i += 1;
        }
    }
    proof {
        assert(roles@ + spec_roles_from(args@, n as int) =~= roles@);
    }
    roles
}

proof fn lemma_roles_from_props(args: Seq<ArgCaptured>, i: int)
    requires
        0 <= i <= args.len(),
        args.len() <= usize::MAX,
    ensures
        spec_roles_from(args, i).len() == args.len() - i,
        forall|k: int|
            0 <= k < args.len() - i ==> (#[trigger] spec_roles_from(args, i)[k] matches
                ArgumentRole::ArrayHead(j) ==> j == i + k + 1 && k + 1 < args.len() - i
                && spec_roles_from(args, i)[k + 1] == ArgumentRole::ArrayLength),
        forall|k: int|
            0 <= k < args.len() - i ==> (#[trigger] spec_roles_from(args, i)[k]
                == ArgumentRole::ArrayLength ==> k >= 1 && spec_roles_from(args, i)[k - 1]
                == ArgumentRole::ArrayHead((i + k) as usize)),
    decreases args.len() - i,
{
    if i >= args.len() {
    } else if spec_is_user_data(args[i]) || spec_is_result(args[i]) || !(i + 1 < args.len()
        && spec_is_array(args[i], Some(args[i + 1]))) {
        lemma_roles_from_props(args, i + 1);
        let r = spec_roles_from(args, i);
        let rest = spec_roles_from(args, i + 1);
        assert(r.len() == 1 + rest.len());
        assert forall|k: int| 1 <= k < r.len() implies r[k] == rest[k - 1] by {}
    } else {
        lemma_roles_from_props(args, i + 2);
        let r = spec_roles_from(args, i);
        let rest = spec_roles_from(args, i + 2);
        assert(r.len() == 2 + rest.len());
        assert(r[0] == ArgumentRole::ArrayHead((i + 1) as usize));
        assert(r[1] == ArgumentRole::ArrayLength);
        assert forall|k: int| 2 <= k < r.len() implies r[k] == rest[k - 2] by {}
    }
}

/// Law: classification assigns exactly one role per argument, and array
/// heads and lengths always co-occur as adjacent positions — an
/// `ArrayHead(j)` at position `k` always has `j == k + 1` and an
/// `ArrayLength` at `k + 1`, and every `ArrayLength` at position `k` is
/// immediately preceded by its `ArrayHead` at `k - 1`.
pub proof fn lemma_roles_pair_adjacent(args: Seq<ArgCaptured>)
    requires
        args.len() <= usize::MAX,
    ensures
        spec_roles_from(args, 0).len() == args.len(),
        forall|k: int|
            0 <= k < args.len() ==> (#[trigger] spec_roles_from(args, 0)[k] matches
                ArgumentRole::ArrayHead(j) ==> j == k + 1 && k + 1 < args.len()
                && spec_roles_from(args, 0)[k + 1] == ArgumentRole::ArrayLength),
        forall|k: int|
            0 <= k < args.len() ==> (#[trigger] spec_roles_from(args, 0)[k]
                == ArgumentRole::ArrayLength ==> k >= 1 && spec_roles_from(args, 0)[k - 1]
                == ArgumentRole::ArrayHead(k as usize)),
{
    lemma_roles_from_props(args, 0);
}

// ---------------------------------------------------------------------------
// Literals and discriminants
// ---------------------------------------------------------------------------

/// The integer value of a literal expression, if it is an integer literal.
pub open spec fn spec_int_literal(lit: ExprLit) -> Option<i64> {
    match lit.lit {
        Lit::Int(v) => Some(v),
        _ => None,
    }
}

/// The explicit discriminant of an enum variant, if present and itself an
/// integer literal; a discriminant expressed as any other computation
/// yields `None` (callers assign an implicit value as usual).
pub open spec fn spec_variant_value(variant: Variant) -> Option<i64> {
    match variant.discriminant {
        Some(Expr::Lit(el)) => spec_int_literal(el),
        _ => None,
    }
}

/// Extracts the int literal from the expression, if it exists.
pub fn extract_int_literal(lit: &ExprLit) -> (r: Option<i64>)
    ensures
        r == spec_int_literal(*lit),
{
    match &lit.lit {
        Lit::Int(v) => Some(*v),
        _ => None,
    }
}

/// Extracts the enum variant value/discriminant, if it exists.
pub fn extract_enum_variant_value(variant: &Variant) -> (r: Option<i64>)
    ensures
        r == spec_variant_value(*variant),
{
    match &variant.discriminant {
        Some(Expr::Lit(lit)) => extract_int_literal(lit),
        _ => None,
    }
}

// ---------------------------------------------------------------------------
// Backend contract
// ---------------------------------------------------------------------------

/// Target language support: the contract every per-language emitter
/// implements. One operation per declaration kind — each receives the
/// declaration, its enclosing module path (outermost first) and the shared
/// output accumulator — plus one finalization step, invoked once after the
/// last declaration of a run.
pub trait Lang {
    /// Convert a Rust constant (`pub const NAME: Type = value;`) into a
    /// target language constant.
    fn parse_const(&mut self, item: &ItemConst, module: &[String], outputs: &mut Outputs) -> Result<
        (),
        Error,
    >;

    /// Convert `pub type A = B;` into a target language type definition.
    fn parse_ty(&mut self, item: &ItemType, module: &[String], outputs: &mut Outputs) -> Result<
        (),
        Error,
    >;

    /// Convert a Rust enum into a target language enum.
    fn parse_enum(&mut self, item: &ItemEnum, module: &[String], outputs: &mut Outputs) -> Result<
        (),
        Error,
    >;

    /// Convert a Rust struct into a target language struct.
    fn parse_struct(
        &mut self,
        item: &ItemStruct,
        module: &[String],
        outputs: &mut Outputs,
    ) -> Result<(), Error>;

    /// Convert a Rust function declaration into a target language function
    /// declaration.
    fn parse_fn(&mut self, item: &ItemFn, module: &[String], outputs: &mut Outputs) -> Result<
        (),
        Error,
    >;

    /// Add extra and custom code after the code generation part is done.
    fn finalise_output(&mut self, outputs: &mut Outputs) -> Result<(), Error>;
}

} // verus!
