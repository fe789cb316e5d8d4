//! Extracting text from an XML document with an XPath expression.
//!
//! The document is parsed and the expression evaluated by `sxd_document`
//! and `sxd_xpath`. This module decides which expressions are handed to
//! them, under which namespace bindings, and what becomes of the nodes that
//! come back.

use vstd::prelude::*;
use crate::result::XmlFault::{Document, Evaluation, Expression};
use crate::result::{Error, Failure, XmlFault};
use crate::text::{chars_of, has_suffix, same_chars};
use sxd_document::parser::parse;
use sxd_xpath::Value::{Boolean, Nodeset, Number};
use sxd_xpath::{Context, Factory, Value};

verus! {

/// The namespace bindings under which every expression is evaluated, as
/// pairs of prefix and namespace.
pub open spec fn bindings() -> Seq<(Seq<char>, Seq<char>)> {
    seq![
        ("d"@, "DAV:"@),
        ("c"@, "urn:ietf:params:xml:ns:caldav"@),
        ("cal"@, "urn:ietf:params:xml:ns:caldav"@),
        ("x1"@, "http://apple.com/ns/ical/"@),
    ]
}

/// Pairs of strings, each string by its view.
pub open spec fn pairs(table: Seq<(String, String)>) -> Seq<(Seq<char>, Seq<char>)> {
    Seq::new(table.len(), |i: int| (table[i].0@, table[i].1@))
}

/// The first component of each pair.
pub open spec fn prefixes(table: Seq<(Seq<char>, Seq<char>)>) -> Seq<Seq<char>> {
    Seq::new(table.len(), |i: int| table[i].0)
}

fn binding_table() -> (table: Vec<(String, String)>)
    ensures
        pairs(table@) == bindings(),
{
    let mut table: Vec<(String, String)> = Vec::new();
    table.push(("d".to_owned(), "DAV:".to_owned()));
    table.push(("c".to_owned(), "urn:ietf:params:xml:ns:caldav".to_owned()));
    table.push(("cal".to_owned(), "urn:ietf:params:xml:ns:caldav".to_owned()));
    table.push(("x1".to_owned(), "http://apple.com/ns/ical/".to_owned()));
    assert(pairs(table@) =~= bindings());
    table
}

/// Where a reading of an expression stands after some of its characters.
pub struct Scan {
    /// Nothing so far stood where it may not stand.
    pub ok: bool,
    /// Inside a quoted literal: the quote that will close it.
    pub quote: Option<char>,
    /// The characters since the last separator, outside literals.
    pub run: Seq<char>,
    /// The last character was a colon outside a literal.
    pub colon: bool,
    /// The last character was a colon after something that is no bound
    /// prefix: it is in order only as the first colon of `::`.
    pub pending: bool,
}

/// A character that cannot be part of a name and ends the run before it.
pub open spec fn separates(c: char) -> bool {
    c == '/' || c == '(' || c == ')' || c == '[' || c == ']' || c == '@' || c == '+' || c == '|'
        || c == '=' || c == '<' || c == '>' || c == ',' || c == '!' || c == '*' || c == '$'
        || c == ' ' || c == '\t' || c == '\r' || c == '\n'
}

/// A character that opens a quoted literal.
pub open spec fn quotes(c: char) -> bool {
    c == '\'' || c == '"'
}

/// Whether a run may name the axis `namespace`, of which the nodes come in
/// no fixed order.
pub open spec fn names_unordered_axis(run: Seq<char>) -> bool {
    "namespace"@.is_suffix_of(run)
}

/// Whether a run may name one of the functions `name` and `sum`, of which
/// the value may depend on the order in which prefixes or nodes are met. A
/// run that ends in `local-name` names neither.
pub open spec fn names_unordered_function(run: Seq<char>) -> bool {
    ("name"@.is_suffix_of(run) && !"local-name"@.is_suffix_of(run)) || "sum"@.is_suffix_of(run)
}

/// The reading before any character.
pub open spec fn scan_start() -> Scan {
    Scan { ok: true, quote: None, run: Seq::empty(), colon: false, pending: false }
}

/// The reading after one more character.
pub open spec fn scan_step(s: Scan, c: char, known: Seq<Seq<char>>) -> Scan {
    if !s.ok {
        s
    } else if s.quote is Some {
        if s.quote == Some(c) {
            scan_start()
        } else {
            s
        }
    } else if s.pending && c != ':' {
        Scan { ok: false, ..s }
    } else if c == ':' {
        if !s.colon && names_unordered_axis(s.run) {
            Scan { ok: false, ..s }
        } else {
            Scan {
                ok: true,
                quote: None,
                run: Seq::empty(),
                colon: true,
                pending: !s.colon && !known.contains(s.run),
            }
        }
    } else if c == '(' && names_unordered_function(s.run) {
        Scan { ok: false, ..s }
    } else if quotes(c) {
        Scan { ok: true, quote: Some(c), run: Seq::empty(), colon: false, pending: false }
    } else if separates(c) {
        scan_start()
    } else {
        Scan { ok: true, quote: None, run: s.run.push(c), colon: false, pending: false }
    }
}

/// The reading after all of `text`.
pub open spec fn scan(text: Seq<char>, known: Seq<Seq<char>>) -> Scan
    decreases text.len(),
{
    if text.len() == 0 {
        scan_start()
    } else {
        scan_step(scan(text.drop_last(), known), text.last(), known)
    }
}

/// Whether `text` may be handed on as an XPath expression under bindings
/// for the prefixes `known`.
///
/// Outside quoted literals, a colon that is not part of a group of two or
/// more colons must directly follow one of the `known` prefixes, and that
/// prefix must begin the text or follow a separator or the end of a
/// literal. Nothing that ends in `namespace` may stand before a colon, and
/// nothing that ends in `sum`, or in `name` other than `local-name`, before
/// an opening bracket. This asks more than XPath does: an expression that
/// it refuses may still name bound prefixes only, and none of that axis
/// and those functions.
pub open spec fn prefixes_bound(text: Seq<char>, known: Seq<Seq<char>>) -> bool {
    scan(text, known).ok && !scan(text, known).pending
}

/// A reading that has failed stays failed.
pub proof fn lemma_scan_fails(text: Seq<char>, n: int, known: Seq<Seq<char>>)
    requires
        0 <= n <= text.len(),
        !scan(text.take(n), known).ok,
    ensures
        !scan(text, known).ok,
    decreases text.len() - n,
{
    if n < text.len() {
        assert(text.take(n + 1).drop_last() =~= text.take(n));
        lemma_scan_fails(text, n + 1, known);
    } else {
        assert(text.take(n) =~= text);
    }
}

fn is_separator(c: char) -> (b: bool)
    ensures
        b == separates(c),
{
    c == '/' || c == '(' || c == ')' || c == '[' || c == ']' || c == '@' || c == '+' || c == '|'
        || c == '=' || c == '<' || c == '>' || c == ',' || c == '!' || c == '*' || c == '$'
        || c == ' ' || c == '\t' || c == '\r' || c == '\n'
}

fn is_known(run: &Vec<char>, known: &Vec<Vec<char>>) -> (b: bool)
    ensures
        b == Seq::new(known@.len(), |i: int| known@[i]@).contains(run@),
{
    let ghost names = Seq::new(known@.len(), |i: int| known@[i]@);
    let mut i: usize = 0;
    while i < known.len()
        invariant
            i <= known@.len(),
            names == Seq::new(known@.len(), |i: int| known@[i]@),
            forall|j: int| 0 <= j < i ==> names[j] != run@,
        decreases known@.len() - i,
    {
        if same_chars(&known[i], run) {
            assert(names[i as int] == run@);
            return true;
        }
        i = i + 1;
    }
    false
}

/// Decides [`prefixes_bound`] for an expression and a table of bindings.
pub fn check_prefixes(xpath: &str, table: &Vec<(String, String)>) -> (b: bool)
    ensures
        b == prefixes_bound(xpath@, prefixes(pairs(table@))),
{
    let ghost known = prefixes(pairs(table@));
    let mut names: Vec<Vec<char>> = Vec::new();
    let mut k: usize = 0;
    while k < table.len()
        invariant
            k <= table@.len(),
            names@.len() == k,
            forall|j: int| 0 <= j < k ==> (#[trigger] names@[j])@ == table@[j].0@,
        decreases table@.len() - k,
    {
        names.push(chars_of(table[k].0.as_str()));
        k = k + 1;
    }
    assert(Seq::new(names@.len(), |i: int| names@[i]@) =~= known);
    let axis = chars_of("namespace");
    let name = chars_of("name");
    let local = chars_of("local-name");
    let sum = chars_of("sum");
    let text = chars_of(xpath);
    let mut quote: Option<char> = None;
    let mut run: Vec<char> = Vec::new();
    let mut colon = false;
    let mut pending = false;
    let mut i: usize = 0;
    assert(text@.take(0) =~= Seq::<char>::empty());
    while i < text.len()
        invariant
            i <= text@.len(),
            text@ == xpath@,
            axis@ == "namespace"@,
            name@ == "name"@,
            local@ == "local-name"@,
            sum@ == "sum"@,
            known == prefixes(pairs(table@)),
            Seq::new(names@.len(), |i: int| names@[i]@) == known,
            scan(text@.take(i as int), known) == (Scan {
                ok: true,
                quote,
                run: run@,
                colon,
                pending,
            }),
        decreases text@.len() - i,
    {
        let c = text[i];
        let ghost before = scan(text@.take(i as int), known);
        proof {
            assert(text@.take(i + 1).drop_last() =~= text@.take(i as int));
            assert(scan(text@.take(i + 1), known) == scan_step(before, c, known));
        }
        match quote {
            Some(q) => {
                if c == q {
                    quote = None;
                    run = Vec::new();
                    colon = false;
                    pending = false;
                }
            },
            None => {
                if pending && c != ':' {
                    proof {
                        lemma_scan_fails(text@, i + 1, known);
                    }
                    return false;
                } else if c == ':' {
                    if !colon && has_suffix(&run, &axis) {
                        proof {
                            lemma_scan_fails(text@, i + 1, known);
                        }
                        return false;
                    }
                    pending = !colon && !is_known(&run, &names);
                    colon = true;
                    run = Vec::new();
                } else if c == '(' && ((has_suffix(&run, &name) && !has_suffix(&run, &local))
                    || has_suffix(&run, &sum)) {
                    proof {
                        lemma_scan_fails(text@, i + 1, known);
                    }
                    return false;
                } else if c == '\'' || c == '"' {
                    quote = Some(c);
                    run = Vec::new();
                    colon = false;
                    pending = false;
                } else if is_separator(c) {
                    run = Vec::new();
                    colon = false;
                    pending = false;
                } else {
                    run.push(c);
                    colon = false;
                    pending = false;
                }
            },
        }
        i = i + 1;
    }
    assert(text@.take(i as int) =~= text@);
    !pending
}

/// Whether `text` may be handed on under the bindings of this crate.
pub open spec fn admitted(text: Seq<char>) -> bool {
    prefixes_bound(text, prefixes(bindings()))
}

/// A table of bindings: pairs of a prefix and a namespace.
pub type Table = Vec<(String, String)>;

/// Whether `text` may be handed on with `table`: the table holds the
/// bindings of this crate and no other, and `text` is admitted under them.
pub open spec fn fit(text: Seq<char>, table: Seq<(String, String)>) -> bool {
    pairs(table) == bindings() && admitted(text)
}

/// What `sxd_xpath` finds for an expression in a document under a table of
/// bindings: the step that failed; nothing where the result is no node-set;
/// else, for each node of the result in document order, its text if it is
/// a text node.
pub uninterp spec fn xpath_nodes(
    xml: Seq<char>,
    xpath: Seq<char>,
    table: Seq<(Seq<char>, Seq<char>)>,
) -> Result<Option<Seq<Option<Seq<char>>>>, XmlFault>;

/// What a query hands back: the nodes of a node-set, each with its text if
/// it is a text node; nothing for another kind of result; or the step that
/// failed.
pub type Selected = Result<Option<Vec<Option<String>>>, XmlFault>;

/// Nodes with their texts as sequences of characters.
pub open spec fn node_texts(nodes: Seq<Option<String>>) -> Seq<Option<Seq<char>>> {
    Seq::new(
        nodes.len(),
        |i: int|
            match nodes[i] {
                Some(t) => Some(t@),
                None => None,
            },
    )
}

/// A selection with its texts as sequences of characters.
pub open spec fn selection(found: Selected) -> Result<Option<Seq<Option<Seq<char>>>>, XmlFault> {
    match found {
        Ok(Some(nodes)) => Ok(Some(node_texts(nodes@))),
        Ok(None) => Ok(None),
        Err(fault) => Err(fault),
    }
}

/// `sxd_document::parser::parse`, `sxd_xpath::Factory::build` and
/// `sxd_xpath::XPath::evaluate`: parses `xml`, binds each prefix of `table`
/// in a fresh context, compiles `xpath` and evaluates it at the first node
/// of the document. A node-set comes back node by node, in document order,
/// where the crate's own iteration goes by a hash; each node gives its text
/// if it is a text node.
///
/// `evaluate` panics where a name test holds a prefix that the context does
/// not bind. The tokenizer reads a prefix from the start of a token to a
/// colon, and a token may start inside a run of name characters: after a
/// number or a dot, or after one of the operator names `and`, `or`, `mod`
/// and `div`, which it matches by their beginning. With the bindings of
/// this crate, which [`fit`] fixes, a prefix begins with a letter and no
/// operator name begins a prefix, and [`admitted`] asks that the whole run
/// before the colon is one of the prefixes: so the prefix that is read is
/// that run. [`admitted`] also keeps out what the crate computes by
/// walking a hash map: the axis `namespace`, the prefix that `name`
/// reports, and the order in which `sum` adds. What is left is a function
/// of the texts, which [`xpath_nodes`] names.
#[verifier::external_body]
fn select(xml: &str, xpath: &str, table: &Table) -> (found: Selected)
    requires
        fit(xpath@, table@),
    ensures
        selection(found) == xpath_nodes(xml@, xpath@, pairs(table@)),
{
    let package = parse(xml).or(Err(Document))?;
    let mut context = Context::new();
    for (prefix, uri) in table {
        context.set_namespace(prefix, uri);
    }
    let compiled = Factory::new().build(xpath).or(Err(Expression))?.ok_or(Expression)?;
    let first = package.as_document().root().children().into_iter().next();
    Ok(match compiled.evaluate(&context, first.ok_or(Document)?).or(Err(Evaluation))? {
        Nodeset(nodes) => Some(nodes.document_order().iter().map(
            |node| node.text().map(|t| t.text().to_owned()),
        ).collect()),
        Boolean(_) | Number(_) | Value::String(_) => None,
    })
}

/// The texts among `nodes`, in order.
pub open spec fn texts(nodes: Seq<Option<Seq<char>>>) -> Seq<Seq<char>>
    decreases nodes.len(),
{
    if nodes.len() == 0 {
        Seq::empty()
    } else {
        match nodes.last() {
            Some(text) => texts(nodes.drop_last()).push(text),
            None => texts(nodes.drop_last()),
        }
    }
}

/// Strings, each by its view.
pub open spec fn lines(list: Seq<String>) -> Seq<Seq<char>> {
    Seq::new(list.len(), |i: int| list[i]@)
}

/// Keeps the text nodes of a selection and drops every other node.
pub fn texts_of(nodes: &Vec<Option<String>>) -> (list: Vec<String>)
    ensures
        lines(list@) == texts(node_texts(nodes@)),
{
    let ghost all = node_texts(nodes@);
    let mut list: Vec<String> = Vec::new();
    let mut i: usize = 0;
    assert(all.take(0) =~= Seq::<Option<Seq<char>>>::empty());
    assert(lines(list@) =~= Seq::<Seq<char>>::empty());
    while i < nodes.len()
        invariant
            i <= nodes@.len(),
            all == node_texts(nodes@),
            all.len() == nodes@.len(),
            lines(list@) == texts(all.take(i as int)),
        decreases nodes@.len() - i,
    {
        proof {
            assert(all.take(i + 1).drop_last() =~= all.take(i as int));
            assert(all.take(i + 1).last() == all[i as int]);
        }
        let ghost before = list@;
        match &nodes[i] {
            Some(text) => {
                list.push(text.clone());
                assert(lines(list@) =~= lines(before).push(text@));
            },
            None => {},
        }
        i = i + 1;
    }
    assert(all.take(i as int) =~= all);
    list
}

/// What becomes of a selection: the texts of a node-set, no text for
/// another kind of result, and the fault as a failure.
pub open spec fn read(found: Result<Option<Seq<Option<Seq<char>>>>, XmlFault>) -> Result<
    Seq<Seq<char>>,
    Failure,
> {
    match found {
        Ok(Some(nodes)) => Ok(texts(nodes)),
        Ok(None) => Ok(Seq::empty()),
        Err(fault) => Err(Failure::Xml(fault)),
    }
}

/// What [`evaluate`] returns for a document and an expression.
pub open spec fn extracted(xml: Seq<char>, xpath: Seq<char>) -> Result<Seq<Seq<char>>, Failure> {
    if !admitted(xpath) {
        Err(Failure::Xml(XmlFault::Refused))
    } else {
        read(xpath_nodes(xml, xpath, bindings()))
    }
}

/// A list of strings, or a failure, by their views.
pub open spec fn extraction(res: Result<Vec<String>, Error>) -> Result<Seq<Seq<char>>, Failure> {
    match res {
        Ok(list) => Ok(lines(list@)),
        Err(e) => Err(e@),
    }
}

/// Reads a selection: a node-set gives the texts of its text nodes, in
/// order; a result of another kind gives no text.
pub fn texts_in(found: Selected) -> (res: Result<Vec<String>, Error>)
    ensures
        extraction(res) == read(selection(found)),
{
    match found {
        Ok(Some(nodes)) => Ok(texts_of(&nodes)),
        Ok(None) => {
            let none: Vec<String> = Vec::new();
            assert(lines(none@) =~= Seq::<Seq<char>>::empty());
            Ok(none)
        },
        Err(fault) => Err(Error::Xml(fault)),
    }
}

/// The texts that `xpath` selects in `xml`, in document order.
///
/// The expression is evaluated at the first node of the document. It may use
/// the prefixes `d`, `c`, `cal` and `x1` and no other, and neither the axis
/// `namespace` nor the functions `name` and `sum`. Nodes other than text
/// nodes are passed over, and so is a result that is no node-set: an
/// expression that selects no text gives an empty list. The same two texts
/// always give the same result.
pub fn evaluate(xml: &str, xpath: &str) -> (res: Result<Vec<String>, Error>)
    ensures
        extraction(res) == extracted(xml@, xpath@),
{
    let table = binding_table();
    if !check_prefixes(xpath, &table) {
        return Err(Error::Xml(XmlFault::Refused));
    }
    texts_in(select(xml, xpath, &table))
}

} // verus!
