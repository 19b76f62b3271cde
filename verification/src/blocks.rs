//! The pieces of text that wrappers are made of. Each piece is given twice: as
//! the text it stands for, and as the function that writes that text. Where a
//! piece is indented, `pad` is the indentation of its outermost lines.

use vstd::prelude::*;
use vstd::string::*;

verus! {

/// The indentation of the wrapper of a struct.
pub const STRUCT_PAD: &'static str = "                        ";

/// What follows a part of the wrapper of a struct.
pub const STRUCT_TAIL: &'static str = "                    ";

/// The indentation of the wrapper of an enum or of a global function.
pub const VALUE_PAD: &'static str = "                    ";

/// What follows the wrapper of an enum or of a global function.
pub const VALUE_TAIL: &'static str = "                ";

/// The line of documentation that points from a wrapper to the foreign type
/// `name`.
pub open spec fn doc_line_text(pad: Seq<char>, name: Seq<char>) -> Seq<char> {
    "\n"@ + pad + "/// See ["@ + name + "] for more documentation.\n"@
}

/// The line of documentation that points from a wrapper to the foreign type
/// `name`.
pub fn doc_line(pad: &str, name: &str) -> (r: String)
    ensures
        r@ == doc_line_text(pad@, name@),
{
    let mut out = String::from_str("\n");
    out.append(pad);
    out.append("/// See [");
    out.append(name);
    out.append("] for more documentation.\n");
    out
}

/// The declaration of `host` as a wrapper around one value of the foreign type
/// `name`.
pub open spec fn tuple_struct_text(pad: Seq<char>, name: Seq<char>, host: Seq<char>) -> Seq<char> {
    pad + "pub struct "@ + host + "("@ + name + ");\n"@
}

/// The declaration of `host` as a wrapper around one value of the foreign type
/// `name`.
pub fn tuple_struct(pad: &str, name: &str, host: &str) -> (r: String)
    ensures
        r@ == tuple_struct_text(pad@, name@, host@),
{
    let mut out = String::from_str(pad);
    out.append("pub struct ");
    out.append(host);
    out.append("(");
    out.append(name);
    out.append(");\n");
    out
}

/// The conversion from the foreign type `name` into its wrapper `host`.
pub open spec fn impl_from_text(pad: Seq<char>, name: Seq<char>, host: Seq<char>) -> Seq<char> {
    "\n"@ + pad + "impl From<"@ + name + "> for "@ + host + " {\n"@ + pad
        + "    fn from(value: "@ + name + ") -> Self {\n"@ + pad + "        Self(value)\n"@
        + pad + "    }\n"@ + pad + "}\n"@
}

/// The conversion from the foreign type `name` into its wrapper `host`.
pub fn impl_from(pad: &str, name: &str, host: &str) -> (r: String)
    ensures
        r@ == impl_from_text(pad@, name@, host@),
{
    let mut out = String::from_str("\n");
    out.append(pad);
    out.append("impl From<");
    out.append(name);
    out.append("> for ");
    out.append(host);
    out.append(" {\n");
    out.append(pad);
    out.append("    fn from(value: ");
    out.append(name);
    out.append(") -> Self {\n");
    out.append(pad);
    out.append("        Self(value)\n");
    out.append(pad);
    out.append("    }\n");
    out.append(pad);
    out.append("}\n");
    out
}

/// The conversion from the wrapper `host` back into the foreign type `name`.
pub open spec fn impl_into_text(pad: Seq<char>, name: Seq<char>, host: Seq<char>) -> Seq<char> {
    "\n"@ + pad + "impl Into<"@ + name + "> for "@ + host + " {\n"@ + pad
        + "    fn into(self) -> "@ + name + " {\n"@ + pad + "        self.0\n"@ + pad
        + "    }\n"@ + pad + "}\n"@
}

/// The conversion from the wrapper `host` back into the foreign type `name`.
pub fn impl_into(pad: &str, name: &str, host: &str) -> (r: String)
    ensures
        r@ == impl_into_text(pad@, name@, host@),
{
    let mut out = String::from_str("\n");
    out.append(pad);
    out.append("impl Into<");
    out.append(name);
    out.append("> for ");
    out.append(host);
    out.append(" {\n");
    out.append(pad);
    out.append("    fn into(self) -> ");
    out.append(name);
    out.append(" {\n");
    out.append(pad);
    out.append("        self.0\n");
    out.append(pad);
    out.append("    }\n");
    out.append(pad);
    out.append("}\n");
    out
}

/// The shared borrow of the foreign value inside the wrapper `host`.
pub open spec fn impl_as_ref_text(pad: Seq<char>, name: Seq<char>, host: Seq<char>) -> Seq<char> {
    "\n"@ + pad + "impl AsRef<"@ + name + "> for "@ + host + " {\n"@ + pad
        + "    fn as_ref(&self) -> &"@ + name + " {\n"@ + pad + "        &self.0\n"@ + pad
        + "    }\n"@ + pad + "}\n"@
}

/// The shared borrow of the foreign value inside the wrapper `host`.
pub fn impl_as_ref(pad: &str, name: &str, host: &str) -> (r: String)
    ensures
        r@ == impl_as_ref_text(pad@, name@, host@),
{
    let mut out = String::from_str("\n");
    out.append(pad);
    out.append("impl AsRef<");
    out.append(name);
    out.append("> for ");
    out.append(host);
    out.append(" {\n");
    out.append(pad);
    out.append("    fn as_ref(&self) -> &");
    out.append(name);
    out.append(" {\n");
    out.append(pad);
    out.append("        &self.0\n");
    out.append(pad);
    out.append("    }\n");
    out.append(pad);
    out.append("}\n");
    out
}

/// The mutable borrow of the foreign value inside the wrapper `host`.
pub open spec fn impl_as_mut_text(pad: Seq<char>, name: Seq<char>, host: Seq<char>) -> Seq<char> {
    "\n"@ + pad + "impl AsMut<"@ + name + "> for "@ + host + " {\n"@ + pad
        + "    fn as_mut(&mut self) -> &mut "@ + name + " {\n"@ + pad + "        &mut self.0\n"@
        + pad + "    }\n"@ + pad + "}\n"@
}

/// The mutable borrow of the foreign value inside the wrapper `host`.
pub fn impl_as_mut(pad: &str, name: &str, host: &str) -> (r: String)
    ensures
        r@ == impl_as_mut_text(pad@, name@, host@),
{
    let mut out = String::from_str("\n");
    out.append(pad);
    out.append("impl AsMut<");
    out.append(name);
    out.append("> for ");
    out.append(host);
    out.append(" {\n");
    out.append(pad);
    out.append("    fn as_mut(&mut self) -> &mut ");
    out.append(name);
    out.append(" {\n");
    out.append(pad);
    out.append("        &mut self.0\n");
    out.append(pad);
    out.append("    }\n");
    out.append(pad);
    out.append("}\n");
    out
}

/// The default value of the wrapper `host`: the foreign value with every byte
/// zero.
pub open spec fn impl_default_text(pad: Seq<char>, host: Seq<char>) -> Seq<char> {
    "\n"@ + pad + "impl Default for "@ + host + " {\n"@ + pad + "    fn default() -> Self {\n"@
        + pad + "        unsafe { std::mem::zeroed() }\n"@ + pad + "    }\n"@ + pad + "}\n"@
}

/// The default value of the wrapper `host`: the foreign value with every byte
/// zero.
pub fn impl_default(pad: &str, host: &str) -> (r: String)
    ensures
        r@ == impl_default_text(pad@, host@),
{
    let mut out = String::from_str("\n");
    out.append(pad);
    out.append("impl Default for ");
    out.append(host);
    out.append(" {\n");
    out.append(pad);
    out.append("    fn default() -> Self {\n");
    out.append(pad);
    out.append("        unsafe { std::mem::zeroed() }\n");
    out.append(pad);
    out.append("    }\n");
    out.append(pad);
    out.append("}\n");
    out
}

/// The head of the conversion from the foreign struct `name` into `host`, up to
/// its list of fields.
pub open spec fn fields_open_from_text(
    pad: Seq<char>,
    name: Seq<char>,
    host: Seq<char>,
) -> Seq<char> {
    "\n"@ + pad + "impl From<"@ + name + "> for "@ + host + " {\n"@ + pad
        + "    fn from(value: "@ + name + ") -> Self {\n"@ + pad + "        Self {"@
}

/// The head of the conversion from the foreign struct `name` into `host`, up to
/// its list of fields.
pub fn fields_open_from(pad: &str, name: &str, host: &str) -> (r: String)
    ensures
        r@ == fields_open_from_text(pad@, name@, host@),
{
    let mut out = String::from_str("\n");
    out.append(pad);
    out.append("impl From<");
    out.append(name);
    out.append("> for ");
    out.append(host);
    out.append(" {\n");
    out.append(pad);
    out.append("    fn from(value: ");
    out.append(name);
    out.append(") -> Self {\n");
    out.append(pad);
    out.append("        Self {");
    out
}

/// The head of the conversion from `host` back into the foreign struct `name`,
/// up to its list of fields.
pub open spec fn fields_open_into_text(
    pad: Seq<char>,
    name: Seq<char>,
    host: Seq<char>,
) -> Seq<char> {
    "\n"@ + pad + "impl Into<"@ + name + "> for "@ + host + " {\n"@ + pad
        + "    fn into(self) -> "@ + name + " {\n"@ + pad + "        "@ + name + " {"@
}

/// The head of the conversion from `host` back into the foreign struct `name`,
/// up to its list of fields.
pub fn fields_open_into(pad: &str, name: &str, host: &str) -> (r: String)
    ensures
        r@ == fields_open_into_text(pad@, name@, host@),
{
    let mut out = String::from_str("\n");
    out.append(pad);
    out.append("impl Into<");
    out.append(name);
    out.append("> for ");
    out.append(host);
    out.append(" {\n");
    out.append(pad);
    out.append("    fn into(self) -> ");
    out.append(name);
    out.append(" {\n");
    out.append(pad);
    out.append("        ");
    out.append(name);
    out.append(" {");
    out
}

/// The end of a conversion, after its list of fields.
pub open spec fn fields_close_text(pad: Seq<char>) -> Seq<char> {
    "\n"@ + pad + "        }\n"@ + pad + "    }\n"@ + pad + "}\n"@
}

/// The end of a conversion, after its list of fields.
pub fn fields_close(pad: &str) -> (r: String)
    ensures
        r@ == fields_close_text(pad@),
{
    let mut out = String::from_str("\n");
    out.append(pad);
    out.append("        }\n");
    out.append(pad);
    out.append("    }\n");
    out.append(pad);
    out.append("}\n");
    out
}

/// One field on the way in: the host field `host` from the foreign field
/// `name`.
pub open spec fn field_from_text(name: Seq<char>, host: Seq<char>) -> Seq<char> {
    "\n"@ + host + ": value."@ + name + ".into(),"@
}

/// One field on the way in: the host field `host` from the foreign field
/// `name`.
pub fn field_from(name: &str, host: &str) -> (r: String)
    ensures
        r@ == field_from_text(name@, host@),
{
    let mut out = String::from_str("\n");
    out.append(host);
    out.append(": value.");
    out.append(name);
    out.append(".into(),");
    out
}

/// One field on the way out: the foreign field `name` from the host field
/// `host`.
pub open spec fn field_into_text(name: Seq<char>, host: Seq<char>) -> Seq<char> {
    "\n"@ + name + ": self."@ + host + ".into(),"@
}

/// One field on the way out: the foreign field `name` from the host field
/// `host`.
pub fn field_into(name: &str, host: &str) -> (r: String)
    ensures
        r@ == field_into_text(name@, host@),
{
    let mut out = String::from_str("\n");
    out.append(name);
    out.append(": self.");
    out.append(host);
    out.append(".into(),");
    out
}

/// The head of the declaration of the host struct `host`.
pub open spec fn struct_open_text(host: Seq<char>) -> Seq<char> {
    "pub struct "@ + host + " {\n"@
}

/// The head of the declaration of the host struct `host`.
pub fn struct_open(host: &str) -> (r: String)
    ensures
        r@ == struct_open_text(host@),
{
    let mut out = String::from_str("pub struct ");
    out.append(host);
    out.append(" {\n");
    out
}

/// One member of a host struct, on a line of its own.
pub open spec fn member_line_text(member: Seq<char>) -> Seq<char> {
    "    "@ + member + "\n"@
}

/// One member of a host struct, on a line of its own.
pub fn member_line(member: &str) -> (r: String)
    ensures
        r@ == member_line_text(member@),
{
    let mut out = String::from_str("    ");
    out.append(member);
    out.append("\n");
    out
}

/// The declaration of the alias `name` for the type `ty`.
pub open spec fn alias_line_text(name: Seq<char>, ty: Seq<char>) -> Seq<char> {
    "pub type "@ + name + " = "@ + ty + ";\n"@
}

/// The declaration of the alias `name` for the type `ty`.
pub fn alias_line(name: &str, ty: &str) -> (r: String)
    ensures
        r@ == alias_line_text(name@, ty@),
{
    let mut out = String::from_str("pub type ");
    out.append(name);
    out.append(" = ");
    out.append(ty);
    out.append(";\n");
    out
}

/// The head of the wrapper `host` around the reference-counted foreign struct
/// `name`.
pub open spec fn wrapper_open_text(pad: Seq<char>, name: Seq<char>, host: Seq<char>) -> Seq<char> {
    "\n"@ + pad + "wrapper!(\n"@ + pad + "    #[doc = \"See ["@ + name
        + "] for more documentation.\"]\n"@ + pad + "    #[derive(Clone)]\n"@ + pad
        + "    pub struct "@ + host + "("@ + name + ");\n"@
}

/// The head of the wrapper `host` around the reference-counted foreign struct
/// `name`.
pub fn wrapper_open(pad: &str, name: &str, host: &str) -> (r: String)
    ensures
        r@ == wrapper_open_text(pad@, name@, host@),
{
    let mut out = String::from_str("\n");
    out.append(pad);
    out.append("wrapper!(\n");
    out.append(pad);
    out.append("    #[doc = \"See [");
    out.append(name);
    out.append("] for more documentation.\"]\n");
    out.append(pad);
    out.append("    #[derive(Clone)]\n");
    out.append(pad);
    out.append("    pub struct ");
    out.append(host);
    out.append("(");
    out.append(name);
    out.append(");\n");
    out
}

/// One method of a reference-counted wrapper.
pub open spec fn wrapper_method_text(signature: Seq<char>) -> Seq<char> {
    "\n    pub "@ + signature + ";"@
}

/// One method of a reference-counted wrapper.
pub fn wrapper_method(signature: &str) -> (r: String)
    ensures
        r@ == wrapper_method_text(signature@),
{
    let mut out = String::from_str("\n    pub ");
    out.append(signature);
    out.append(";");
    out
}

/// The end of the wrapper and the head of the trait `Impl<host>`, with its
/// bound on the implementor.
pub open spec fn trait_open_text(pad: Seq<char>, host: Seq<char>, bound: Seq<char>) -> Seq<char> {
    "\n"@ + pad + ");\n\n"@ + pad + "pub trait Impl"@ + host + bound + " {\n"@
}

/// The end of the wrapper and the head of the trait `Impl<host>`, with its
/// bound on the implementor.
pub fn trait_open(pad: &str, host: &str, bound: &str) -> (r: String)
    ensures
        r@ == trait_open_text(pad@, host@, bound@),
{
    let mut out = String::from_str("\n");
    out.append(pad);
    out.append(");\n\n");
    out.append(pad);
    out.append("pub trait Impl");
    out.append(host);
    out.append(bound);
    out.append(" {\n");
    out
}

/// One method of the trait, with the body it has unless it is overridden.
pub open spec fn trait_method_text(signature: Seq<char>, body: Seq<char>) -> Seq<char> {
    "    "@ + signature + " {"@ + body + "}\n"@
}

/// One method of the trait, with the body it has unless it is overridden.
pub fn trait_method(signature: &str, body: &str) -> (r: String)
    ensures
        r@ == trait_method_text(signature@, body@),
{
    let mut out = String::from_str("    ");
    out.append(signature);
    out.append(" {");
    out.append(body);
    out.append("}\n");
    out
}

/// The head of `into_raw`: a foreign struct `name` with every byte zero.
pub open spec fn into_raw_open_text(pad: Seq<char>, name: Seq<char>) -> Seq<char> {
    "\n"@ + pad + "    fn into_raw(self) -> *mut "@ + name + " {\n"@ + pad
        + "        let mut object: "@ + name + " = unsafe { std::mem::zeroed() };"@
}

/// The head of `into_raw`: a foreign struct `name` with every byte zero.
pub fn into_raw_open(pad: &str, name: &str) -> (r: String)
    ensures
        r@ == into_raw_open_text(pad@, name@),
{
    let mut out = String::from_str("\n");
    out.append(pad);
    out.append("    fn into_raw(self) -> *mut ");
    out.append(name);
    out.append(" {\n");
    out.append(pad);
    out.append("        let mut object: ");
    out.append(name);
    out.append(" = unsafe { std::mem::zeroed() };");
    out
}

/// The call that fills the slots of the ancestor `name`, whose record lies at
/// `path` in the object.
pub open spec fn init_line_text(name: Seq<char>, path: Seq<char>) -> Seq<char> {
    "\nimpl"@ + name + "::init_methods::<Self>(&mut object."@ + path + ");"@
}

/// The call that fills the slots of the ancestor `name`, whose record lies at
/// `path` in the object.
pub fn init_line(name: &str, path: &str) -> (r: String)
    ensures
        r@ == init_line_text(name@, path@),
{
    let mut out = String::from_str("\nimpl");
    out.append(name);
    out.append("::init_methods::<Self>(&mut object.");
    out.append(path);
    out.append(");");
    out
}

/// The end of `into_raw`, which fills the struct's own slots last and hands the
/// object over, and the head of the module that holds its trampolines.
pub open spec fn into_raw_close_text(
    pad: Seq<char>,
    name: Seq<char>,
    host: Seq<char>,
) -> Seq<char> {
    "\n"@ + pad + "        impl"@ + name + "::init_methods::<Self>(&mut object);\n"@ + pad
        + "        RcImpl::new(object, self) as *mut _\n"@ + pad + "    }\n"@ + pad + "}\n\n"@
        + pad + "mod impl"@ + name + " {\n"@ + pad + "    use super::*;\n\n"@ + pad
        + "    pub fn init_methods<I: Impl"@ + host + ">(object: &mut "@ + name + ") {"@
}

/// The end of `into_raw`, which fills the struct's own slots last and hands the
/// object over, and the head of the module that holds its trampolines.
pub fn into_raw_close(pad: &str, name: &str, host: &str) -> (r: String)
    ensures
        r@ == into_raw_close_text(pad@, name@, host@),
{
    let mut out = String::from_str("\n");
    out.append(pad);
    out.append("        impl");
    out.append(name);
    out.append("::init_methods::<Self>(&mut object);\n");
    out.append(pad);
    out.append("        RcImpl::new(object, self) as *mut _\n");
    out.append(pad);
    out.append("    }\n");
    out.append(pad);
    out.append("}\n\n");
    out.append(pad);
    out.append("mod impl");
    out.append(name);
    out.append(" {\n");
    out.append(pad);
    out.append("    use super::*;\n\n");
    out.append(pad);
    out.append("    pub fn init_methods<I: Impl");
    out.append(host);
    out.append(">(object: &mut ");
    out.append(name);
    out.append(") {");
    out
}

/// The statement that puts the trampoline of `method` into its slot.
pub open spec fn slot_line_text(method: Seq<char>) -> Seq<char> {
    "object."@ + method + " = Some("@ + method + "::<I>);"@
}

/// The statement that puts the trampoline of `method` into its slot.
pub fn slot_line(method: &str) -> (r: String)
    ensures
        r@ == slot_line_text(method@),
{
    let mut out = String::from_str("object.");
    out.append(method);
    out.append(" = Some(");
    out.append(method);
    out.append("::<I>);");
    out
}

/// The end of the function that fills the slots.
pub open spec fn slots_close_text(pad: Seq<char>, tail: Seq<char>) -> Seq<char> {
    "\n"@ + pad + "    }\n"@ + tail + "\n"@
}

/// The end of the function that fills the slots.
pub fn slots_close(pad: &str, tail: &str) -> (r: String)
    ensures
        r@ == slots_close_text(pad@, tail@),
{
    let mut out = String::from_str("\n");
    out.append(pad);
    out.append("    }\n");
    out.append(tail);
    out.append("\n");
    out
}

/// The trampoline of `method`: a function of the foreign calling convention
/// that finds the implementation behind the receiver and calls its method.
pub open spec fn trampoline_text(
    pad: Seq<char>,
    method: Seq<char>,
    host: Seq<char>,
    params: Seq<char>,
    output: Seq<char>,
    forwarded: Seq<char>,
    back: Seq<char>,
) -> Seq<char> {
    "\n"@ + pad + "    extern \"C\" fn "@ + method + "<I: Impl"@ + host + ">("@ + params + ")"@
        + output + " {\n"@ + pad + "        let obj: &RcImpl<_, I> = RcImpl::get(self_);\n"@
        + pad + "        obj.interface."@ + method + "("@ + forwarded + ")"@ + back + "\n"@
        + pad + "    }\n"@ + pad + "\n"@
}

/// The trampoline of `method`: a function of the foreign calling convention
/// that finds the implementation behind the receiver and calls its method.
pub fn trampoline(
    pad: &str,
    method: &str,
    host: &str,
    params: &str,
    output: &str,
    forwarded: &str,
    back: &str,
) -> (r: String)
    ensures
        r@ == trampoline_text(pad@, method@, host@, params@, output@, forwarded@, back@),
{
    let mut out = String::from_str("\n");
    out.append(pad);
    out.append("    extern \"C\" fn ");
    out.append(method);
    out.append("<I: Impl");
    out.append(host);
    out.append(">(");
    out.append(params);
    out.append(")");
    out.append(output);
    out.append(" {\n");
    out.append(pad);
    out.append("        let obj: &RcImpl<_, I> = RcImpl::get(self_);\n");
    out.append(pad);
    out.append("        obj.interface.");
    out.append(method);
    out.append("(");
    out.append(forwarded);
    out.append(")");
    out.append(back);
    out.append("\n");
    out.append(pad);
    out.append("    }\n");
    out.append(pad);
    out.append("\n");
    out
}

/// The wrapper of a global function: a host function that calls the foreign
/// function `target`.
pub open spec fn global_wrapper_text(
    pad: Seq<char>,
    tail: Seq<char>,
    signature: Seq<char>,
    target: Seq<char>,
    forwarded: Seq<char>,
    back: Seq<char>,
) -> Seq<char> {
    "\n"@ + pad + "pub "@ + signature + " {\n"@ + pad + "    unsafe { "@ + target + "("@
        + forwarded + ")"@ + back + " }\n"@ + pad + "}\n"@ + tail + "\n"@
}

/// The wrapper of a global function: a host function that calls the foreign
/// function `target`.
pub fn global_wrapper(
    pad: &str,
    tail: &str,
    signature: &str,
    target: &str,
    forwarded: &str,
    back: &str,
) -> (r: String)
    ensures
        r@ == global_wrapper_text(pad@, tail@, signature@, target@, forwarded@, back@),
{
    let mut out = String::from_str("\n");
    out.append(pad);
    out.append("pub ");
    out.append(signature);
    out.append(" {\n");
    out.append(pad);
    out.append("    unsafe { ");
    out.append(target);
    out.append("(");
    out.append(forwarded);
    out.append(")");
    out.append(back);
    out.append(" }\n");
    out.append(pad);
    out.append("}\n");
    out.append(tail);
    out.append("\n");
    out
}

} // verus!
