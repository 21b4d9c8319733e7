//! An indenting writer for the editor's XML documents, and the access keys
//! that place keyforms on their grids.

use vstd::prelude::*;
use vstd::string::StringSliceAdditionalSpecFns;

use crate::text::{escape_bytes, xml_escape};

verus! {

/// One attribute of an element.
#[derive(Debug, Clone)]
pub struct Attr {
    /// The attribute name.
    pub name: String,
    /// The attribute value, escaped when written.
    pub value: String,
}

/// Builds an attribute.
pub fn attr(name: &str, value: String) -> (res: Attr)
    ensures
        res.name@ == name@,
        res.value == value,
{
    Attr { name: String::from_str(name), value }
}

/// The UTF-8 bytes of a string.
pub open spec fn utf8(s: Seq<char>) -> Seq<u8> {
    vstd::utf8::encode_utf8(s)
}

/// Two spaces per level of nesting.
pub open spec fn indent(depth: nat) -> Seq<u8> {
    Seq::new(2 * depth, |i: int| 32u8)
}

/// The name and value of each attribute.
pub open spec fn attr_views(attrs: Seq<Attr>) -> Seq<(Seq<char>, Seq<char>)> {
    attrs.map_values(|a: Attr| (a.name@, a.value@))
}

/// The written form of one attribute: a space, the name, `="`, the escaped
/// value and `"`.
pub open spec fn attr_bytes(a: (Seq<char>, Seq<char>)) -> Seq<u8> {
    seq![32u8] + utf8(a.0) + seq![61u8, 34u8] + escape_bytes(utf8(a.1)) + seq![34u8]
}

/// The written form of a list of attributes.
pub open spec fn attrs_bytes(attrs: Seq<(Seq<char>, Seq<char>)>) -> Seq<u8>
    decreases attrs.len(),
{
    if attrs.len() == 0 {
        Seq::empty()
    } else {
        attrs_bytes(attrs.drop_last()) + attr_bytes(attrs.last())
    }
}

/// A start tag at `depth`, on its own line.
pub open spec fn start_line(depth: nat, tag: Seq<char>, attrs: Seq<(Seq<char>, Seq<char>)>) -> Seq<u8> {
    indent(depth) + seq![60u8] + utf8(tag) + attrs_bytes(attrs) + seq![62u8, 10u8]
}

/// An end tag at `depth`, on its own line.
pub open spec fn end_line(depth: nat, tag: Seq<char>) -> Seq<u8> {
    indent(depth) + seq![60u8, 47u8] + utf8(tag) + seq![62u8, 10u8]
}

/// An empty element at `depth`, on its own line.
pub open spec fn empty_line(depth: nat, tag: Seq<char>, attrs: Seq<(Seq<char>, Seq<char>)>) -> Seq<u8> {
    indent(depth) + seq![60u8] + utf8(tag) + attrs_bytes(attrs) + seq![32u8, 47u8, 62u8, 10u8]
}

/// An element holding escaped text at `depth`, on its own line.
pub open spec fn text_line(depth: nat, tag: Seq<char>, attrs: Seq<(Seq<char>, Seq<char>)>, value: Seq<char>) -> Seq<u8> {
    indent(depth) + seq![60u8] + utf8(tag) + attrs_bytes(attrs) + seq![62u8] + escape_bytes(utf8(value)) + seq![
        60u8,
        47u8,
    ] + utf8(tag) + seq![62u8, 10u8]
}

/// The abstract contents of an [`XmlWriter`].
pub struct XmlWriterView {
    pub output: Seq<u8>,
    pub depth: nat,
}

/// Writes an XML document line by line, indenting nested elements.
pub struct XmlWriter {
    output: Vec<u8>,
    depth: usize,
}

impl View for XmlWriter {
    type V = XmlWriterView;

    closed spec fn view(&self) -> XmlWriterView {
        XmlWriterView { output: self.output@, depth: self.depth as nat }
    }
}

/// Appends `bytes` to `out`.
fn push_bytes(out: &mut Vec<u8>, bytes: &[u8])
    ensures
        final(out)@ == old(out)@ + bytes@,
{
    let mut i: usize = 0;
    while i < bytes.len()
        invariant
            i <= bytes@.len(),
            out@ == old(out)@ + bytes@.subrange(0, i as int),
        decreases bytes@.len() - i,
    {
        out.push(bytes[i]);
        i = i + 1;
        assert(out@ =~= old(out)@ + bytes@.subrange(0, i as int));
    }
    assert(bytes@.subrange(0, bytes@.len() as int) =~= bytes@);
}

impl XmlWriter {
    /// Creates an empty writer.
    pub fn new() -> (res: XmlWriter)
        ensures
            res@ == (XmlWriterView { output: Seq::empty(), depth: 0 }),
    {
        XmlWriter { output: Vec::new(), depth: 0 }
    }

    /// Writes a line as given, such as an XML declaration.
    pub fn declaration(&mut self, value: &str)
        ensures
            final(self)@ == (XmlWriterView {
                output: old(self)@.output + utf8(value@) + seq![10u8],
                depth: old(self)@.depth,
            }),
    {
        push_bytes(&mut self.output, value.as_bytes());
        self.output.push(10);
        assert(self.output@ =~= old(self)@.output + utf8(value@) + seq![10u8]);
    }

    /// Writes the indentation of the current depth.
    fn indent(&mut self)
        ensures
            final(self)@ == (XmlWriterView {
                output: old(self)@.output + indent(old(self)@.depth),
                depth: old(self)@.depth,
            }),
    {
        let ghost start = self.output@;
        let mut i: usize = 0;
        while i < self.depth
            invariant
                i <= self.depth,
                self.depth == old(self).depth,
                self.output@ == start + indent(i as nat),
                start == old(self).output@,
            decreases self.depth - i,
        {
            self.output.push(32);
            self.output.push(32);
            i = i + 1;
            assert(self.output@ =~= start + indent(i as nat));
        }
    }

    /// Writes the attributes.
    fn attributes(&mut self, attrs: &[Attr])
        ensures
            final(self)@ == (XmlWriterView {
                output: old(self)@.output + attrs_bytes(attr_views(attrs@)),
                depth: old(self)@.depth,
            }),
    {
        let ghost start = self.output@;
        let mut i: usize = 0;
        while i < attrs.len()
            invariant
                i <= attrs@.len(),
                self.depth == old(self).depth,
                start == old(self).output@,
                self.output@ == start + attrs_bytes(attr_views(attrs@.subrange(0, i as int))),
            decreases attrs@.len() - i,
        {
            let a = &attrs[i];
            let ghost before = self.output@;
            self.output.push(32);
            push_bytes(&mut self.output, a.name.as_str().as_bytes());
            self.output.push(61);
            self.output.push(34);
            let escaped = xml_escape(a.value.as_str());
            push_bytes(&mut self.output, escaped.as_slice());
            self.output.push(34);
            assert(self.output@ =~= before + attr_bytes((attrs@[i as int].name@, attrs@[i as int].value@)));
            assert(attr_views(attrs@.subrange(0, i + 1)).drop_last() =~= attr_views(attrs@.subrange(0, i as int)));
            assert(attr_views(attrs@.subrange(0, i + 1)).last() == (attrs@[i as int].name@, attrs@[i as int].value@));
            i = i + 1;
        }
        assert(attrs@.subrange(0, attrs@.len() as int) =~= attrs@);
    }

    /// Opens an element on its own line and nests what follows.
    pub fn start(&mut self, tag: &str, attrs: &[Attr])
        requires
            old(self)@.depth < usize::MAX,
        ensures
            final(self)@ == (XmlWriterView {
                output: old(self)@.output + start_line(old(self)@.depth, tag@, attr_views(attrs@)),
                depth: old(self)@.depth + 1,
            }),
    {
        self.indent();
        self.output.push(60);
        push_bytes(&mut self.output, tag.as_bytes());
        self.attributes(attrs);
        self.output.push(62);
        self.output.push(10);
        assert(self.output@ =~= old(self)@.output + start_line(old(self)@.depth, tag@, attr_views(attrs@)));
        self.depth = self.depth + 1;
    }

    /// Closes the innermost element on its own line.
    pub fn end(&mut self, tag: &str)
        requires
            old(self)@.depth > 0,
        ensures
            final(self)@ == (XmlWriterView {
                output: old(self)@.output + end_line((old(self)@.depth - 1) as nat, tag@),
                depth: (old(self)@.depth - 1) as nat,
            }),
    {
        self.depth = self.depth - 1;
        self.indent();
        self.output.push(60);
        self.output.push(47);
        push_bytes(&mut self.output, tag.as_bytes());
        self.output.push(62);
        self.output.push(10);
        assert(self.output@ =~= old(self)@.output + end_line((old(self)@.depth - 1) as nat, tag@));
    }

    /// Writes an empty element on its own line.
    pub fn empty(&mut self, tag: &str, attrs: &[Attr])
        ensures
            final(self)@ == (XmlWriterView {
                output: old(self)@.output + empty_line(old(self)@.depth, tag@, attr_views(attrs@)),
                depth: old(self)@.depth,
            }),
    {
        self.indent();
        self.output.push(60);
        push_bytes(&mut self.output, tag.as_bytes());
        self.attributes(attrs);
        self.output.push(32);
        self.output.push(47);
        self.output.push(62);
        self.output.push(10);
        assert(self.output@ =~= old(self)@.output + empty_line(old(self)@.depth, tag@, attr_views(attrs@)));
    }

    /// Writes an element holding escaped text on its own line.
    pub fn text(&mut self, tag: &str, attrs: &[Attr], value: &str)
        ensures
            final(self)@ == (XmlWriterView {
                output: old(self)@.output + text_line(old(self)@.depth, tag@, attr_views(attrs@), value@),
                depth: old(self)@.depth,
            }),
    {
        self.indent();
        self.output.push(60);
        push_bytes(&mut self.output, tag.as_bytes());
        self.attributes(attrs);
        self.output.push(62);
        let escaped = xml_escape(value);
        push_bytes(&mut self.output, escaped.as_slice());
        self.output.push(60);
        self.output.push(47);
        push_bytes(&mut self.output, tag.as_bytes());
        self.output.push(62);
        self.output.push(10);
        assert(self.output@ =~= old(self)@.output + text_line(old(self)@.depth, tag@, attr_views(attrs@), value@));
    }

    /// Returns the document written so far.
    pub fn finish(self) -> (res: Vec<u8>)
        ensures
            res@ == self@.output,
    {
        self.output
    }
}

/// `a * b`, or the largest `usize` when that overflows.
pub open spec fn saturating_mul(a: nat, b: nat) -> nat {
    if a * b > usize::MAX {
        usize::MAX as nat
    } else {
        a * b
    }
}

/// How many values an axis with `count` keys takes: at least one.
pub open spec fn axis_len(count: nat) -> nat {
    if count == 0 {
        1
    } else {
        count
    }
}

/// The stride of axis `i`: the product of the lengths of the axes before
/// it, saturating.
pub open spec fn stride_at(counts: Seq<usize>, i: int) -> nat
    decreases i,
{
    if i <= 0 {
        1
    } else {
        saturating_mul(stride_at(counts, i - 1), axis_len(counts[i - 1] as nat))
    }
}

/// The key index of keyform `form` on axis `i`: its digit in the mixed
/// radix of the axis lengths; an axis without keys always gives `0`.
pub open spec fn key_at(form: nat, counts: Seq<usize>, i: int) -> nat {
    if counts[i] == 0 {
        0
    } else {
        (form / stride_at(counts, i)) % (counts[i] as nat)
    }
}

/// Returns the key index of keyform `form` on every axis, the axes having
/// `key_counts` keys: the grid access key of the keyform.
pub fn grid_access_key(form: usize, key_counts: &[usize]) -> (res: Vec<usize>)
    ensures
        res@.len() == key_counts@.len(),
        forall|i: int| 0 <= i < key_counts@.len() ==> (#[trigger] res@[i]) as nat == key_at(form as nat, key_counts@, i),
{
    let mut keys: Vec<usize> = Vec::new();
    let mut stride: usize = 1;
    let mut i: usize = 0;
    while i < key_counts.len()
        invariant
            i <= key_counts@.len(),
            stride as nat == stride_at(key_counts@, i as int),
            stride >= 1,
            keys@.len() == i,
            forall|j: int| 0 <= j < i ==> (#[trigger] keys@[j]) as nat == key_at(form as nat, key_counts@, j),
        decreases key_counts@.len() - i,
    {
        let count = key_counts[i];
        let key = if count == 0 {
            0
        } else {
            (form / stride) % count
        };
        keys.push(key);
        let axis: usize = if count == 0 {
            1
        } else {
            count
        };
        assert(stride as int * axis as int >= 1) by (nonlinear_arith)
            requires
                stride >= 1,
                axis >= 1,
        ;
        stride = match stride.checked_mul(axis) {
            Some(product) => product,
            None => usize::MAX,
        };
        i = i + 1;
    }
    keys
}

/// The keyform a grid access key points back to: each key times its
/// stride, summed.
pub open spec fn form_of_key(keys: Seq<nat>, counts: Seq<usize>, n: int) -> nat
    decreases n,
{
    if n <= 0 {
        0
    } else {
        form_of_key(keys, counts, n - 1) + keys[n - 1] * stride_at(counts, n - 1)
    }
}

/// The product of the lengths of the first `n` axes.
pub open spec fn grid_size(counts: Seq<usize>, n: int) -> nat
    decreases n,
{
    if n <= 0 {
        1
    } else {
        grid_size(counts, n - 1) * axis_len(counts[n - 1] as nat)
    }
}

/// While the grid size fits a `usize`, strides do not saturate.
proof fn lemma_strides_exact(counts: Seq<usize>, n: int)
    requires
        0 <= n <= counts.len(),
        grid_size(counts, n) <= usize::MAX,
    ensures
        stride_at(counts, n) == grid_size(counts, n),
        grid_size(counts, n) >= 1,
    decreases n,
{
    if n > 0 {
        let a = grid_size(counts, n - 1);
        let b = axis_len(counts[n - 1] as nat);
        assert(a * b >= a) by (nonlinear_arith)
            requires
                b >= 1,
        ;
        lemma_strides_exact(counts, n - 1);
        assert(a * b >= 1) by (nonlinear_arith)
            requires
                a >= 1,
                b >= 1,
        ;
    }
}

/// The first `n` digits of a keyform give back its remainder modulo the
/// size of the first `n` axes.
proof fn lemma_digits(form: nat, counts: Seq<usize>, n: int)
    requires
        0 <= n <= counts.len(),
        grid_size(counts, n) <= usize::MAX,
    ensures
        form_of_key(Seq::new(counts.len(), |i: int| key_at(form, counts, i)), counts, n) == form % grid_size(
            counts,
            n,
        ),
    decreases n,
{
    let keys = Seq::new(counts.len(), |i: int| key_at(form, counts, i));
    if n > 0 {
        let a = grid_size(counts, n - 1);
        let b = axis_len(counts[n - 1] as nat);
        assert(a * b >= a) by (nonlinear_arith)
            requires
                b >= 1,
        ;
        lemma_strides_exact(counts, n - 1);
        lemma_digits(form, counts, n - 1);
        vstd::arithmetic::div_mod::lemma_mod_breakdown(form as int, a as int, b as int);
        if counts[n - 1] == 0 {
            assert(b == 1);
            assert((form / a) % 1 == 0);
        }
        assert(keys[n - 1] == (form / a) % b);
        assert(form_of_key(keys, counts, n) == form % a + ((form / a) % b) * a);
        assert(((form / a) % b) * a == a * ((form / a) % b)) by (nonlinear_arith);
    }
}

/// A keyform of a grid whose size fits a `usize` is the one its access key
/// points back to.
pub proof fn lemma_access_key_round_trip(form: nat, counts: Seq<usize>)
    requires
        grid_size(counts, counts.len() as int) <= usize::MAX,
        form < grid_size(counts, counts.len() as int),
    ensures
        form_of_key(Seq::new(counts.len(), |i: int| key_at(form, counts, i)), counts, counts.len() as int) == form,
{
    lemma_digits(form, counts, counts.len() as int);
    vstd::arithmetic::div_mod::lemma_small_mod(form, grid_size(counts, counts.len() as int));
}

} // verus!
