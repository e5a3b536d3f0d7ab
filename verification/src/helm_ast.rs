//! A typed model of Helm template documents (YAML text mixed with Go
//! template actions) and its rendering to template text.

use vstd::prelude::*;

use crate::text::{
    brace_free, brace_safe, closes, decimal, lemma_brace_free_concat, lemma_brace_free_safe, lemma_counts_free,
    lemma_decimal_brace_free, lemma_open_close, lemma_open_then, lemma_safe_concat, lemma_safe_free_counts,
    lemma_safe_safe_counts, lemma_safe_then_free, lemma_then_close, opens, push_decimal, well_braced,
};

verus! {

/// Whitespace trimming of a template action's delimiters.
#[derive(Debug, Clone, Copy, PartialEq, Eq)]
pub enum Trim {
    /// `{{ expr }}`: no trimming.
    NoTrim,
    /// `{{- expr }}`: trims whitespace on the left.
    Left,
    /// `{{ expr -}}`: trims whitespace on the right.
    Right,
    /// `{{- expr -}}`: trims both sides.
    Both,
}

/// A filter applied to an expression in a pipeline (`| quote`, `| nindent 4`).
#[derive(Debug, Clone, PartialEq, Eq)]
pub enum PipeFilter {
    Quote,
    Nindent(u32),
    Indent(u32),
    ToYaml,
    Upper,
    Lower,
    Default(String),
    Trim,
}

/// A node of a Helm template document.
#[derive(Debug, PartialEq, Eq)]
pub enum HelmNode {
    /// Raw text, passed through verbatim.
    Text(String),
    /// `{{ include "template" context }}`.
    Include { template: String, context: String, trim: Trim },
    /// `{{ path | filter | ... }}`.
    ValueRef { path: String, pipeline: Vec<PipeFilter>, trim: Trim },
    /// `{{- if condition }}` body (`{{- else }}` else-body) `{{- end }}`.
    If { condition: String, body: Vec<HelmNode>, else_body: Option<Vec<HelmNode>> },
    /// `{{- range over }}` body `{{- end }}`.
    Range { over: String, body: Vec<HelmNode> },
    /// `{{- define "name" -}}` body `{{- end -}}`.
    Define { name: String, body: Vec<HelmNode> },
    /// `{{/* comment */}}`.
    Comment(String),
}

/// The opening delimiter for a trimming mode.
pub open spec fn open_delim(trim: Trim) -> Seq<char> {
    match trim {
        Trim::NoTrim => "{{"@,
        Trim::Left => "{{-"@,
        Trim::Right => "{{"@,
        Trim::Both => "{{-"@,
    }
}

/// The closing delimiter for a trimming mode.
pub open spec fn close_delim(trim: Trim) -> Seq<char> {
    match trim {
        Trim::NoTrim => "}}"@,
        Trim::Left => "}}"@,
        Trim::Right => "-}}"@,
        Trim::Both => "-}}"@,
    }
}

/// The text of a pipeline filter.
pub open spec fn filter_text(f: PipeFilter) -> Seq<char> {
    match f {
        PipeFilter::Quote => "quote"@,
        PipeFilter::Nindent(n) => "nindent "@ + decimal(n as nat),
        PipeFilter::Indent(n) => "indent "@ + decimal(n as nat),
        PipeFilter::ToYaml => "toYaml"@,
        PipeFilter::Upper => "upper"@,
        PipeFilter::Lower => "lower"@,
        PipeFilter::Default(v) => "default \""@ + v@ + "\""@,
        PipeFilter::Trim => "trim"@,
    }
}

/// The text of a pipeline: each filter preceded by ` | `.
pub open spec fn pipeline_text(p: Seq<PipeFilter>) -> Seq<char>
    decreases p.len(),
{
    if p.len() == 0 {
        Seq::empty()
    } else {
        pipeline_text(p.drop_last()) + " | "@ + filter_text(p.last())
    }
}

/// The rendered text of one node.
pub open spec fn node_text(n: HelmNode) -> Seq<char>
    decreases n,
{
    match n {
        HelmNode::Text(t) => t@,
        HelmNode::Include { template, context, trim } => open_delim(trim) + " include \""@
            + template@ + "\" "@ + context@ + " "@ + close_delim(trim),
        HelmNode::ValueRef { path, pipeline, trim } => open_delim(trim) + " "@ + path@
            + pipeline_text(pipeline@) + " "@ + close_delim(trim),
        HelmNode::If { condition, body, else_body } => "{{- if "@ + condition@ + " }}\n"@
            + nodes_text(body@) + match else_body {
            Some(e) => "{{- else }}\n"@ + nodes_text(e@),
            None => Seq::empty(),
        } + "{{- end }}"@,
        HelmNode::Range { over, body } => "{{- range "@ + over@ + " }}\n"@ + nodes_text(body@)
            + "{{- end }}"@,
        HelmNode::Define { name, body } => "{{- define \""@ + name@ + "\" -}}\n"@ + nodes_text(
            body@,
        ) + "{{- end -}}"@,
        HelmNode::Comment(t) => "{{/* "@ + t@ + " */}}"@,
    }
}

/// The rendered text of a sequence of nodes: their texts, one after another.
pub open spec fn nodes_text(ns: Seq<HelmNode>) -> Seq<char>
    decreases ns,
{
    if ns.len() == 0 {
        Seq::empty()
    } else {
        nodes_text(ns.drop_last()) + node_text(ns.last())
    }
}

/// Extending a prefix of a node sequence by one node appends that node's text.
pub proof fn lemma_nodes_text_step(ns: Seq<HelmNode>, i: int)
    requires
        0 <= i < ns.len(),
    ensures
        nodes_text(ns.take(i + 1)) == nodes_text(ns.take(i)) + node_text(ns[i]),
{
    assert(ns.take(i + 1).drop_last() =~= ns.take(i));
}

/// Extending a prefix of a pipeline by one filter appends that filter's text.
pub proof fn lemma_pipeline_text_step(p: Seq<PipeFilter>, i: int)
    requires
        0 <= i < p.len(),
    ensures
        pipeline_text(p.take(i + 1)) == pipeline_text(p.take(i)) + " | "@ + filter_text(p[i]),
{
    assert(p.take(i + 1).drop_last() =~= p.take(i));
}

/// Rendering distributes over concatenation: the text of two node sequences
/// placed one after the other is the text of the first followed by the text of
/// the second.
pub proof fn render_concatenation(a: Seq<HelmNode>, b: Seq<HelmNode>)
    ensures
        nodes_text(a + b) == nodes_text(a) + nodes_text(b),
    decreases b.len(),
{
    if b.len() == 0 {
        assert(a + b =~= a);
    } else {
        render_concatenation(a, b.drop_last());
        assert((a + b).drop_last() =~= a + b.drop_last());
        assert((a + b).last() == b.last());
    }
}

/// Rendering a single node gives that node's own text (what `to_text` returns).
pub proof fn render_single(n: HelmNode)
    ensures
        nodes_text(seq![n]) == node_text(n),
{
    assert(seq![n].drop_last() =~= Seq::<HelmNode>::empty());
    assert(seq![n].last() == n);
    assert(nodes_text(Seq::<HelmNode>::empty()) == Seq::<char>::empty());
    assert(Seq::<char>::empty() + node_text(n) =~= node_text(n));
}

impl HelmNode {
    /// `{{- include "<template>" <context> }}`
    pub fn include_node(template: &str, context: &str) -> (res: Self)
        ensures
            res matches HelmNode::Include { template: t, context: c, trim } && t@ == template@
                && c@ == context@ && trim == Trim::Left,
    {
        HelmNode::Include {
            template: String::from_str(template),
            context: String::from_str(context),
            trim: Trim::Left,
        }
    }

    /// `{{ .Values.<path> | quote }}`
    pub fn value_quoted(path: &str) -> (res: Self)
        ensures
            res matches HelmNode::ValueRef { path: p, pipeline, trim } && p@ == ".Values."@
                + path@ && pipeline@ == seq![PipeFilter::Quote] && trim == Trim::NoTrim,
    {
        let mut p = String::from_str(".Values.");
        p.append(path);
        HelmNode::ValueRef { path: p, pipeline: vec![PipeFilter::Quote], trim: Trim::NoTrim }
    }

    /// `{{ .Values.<path> }}`
    pub fn value_ref(path: &str) -> (res: Self)
        ensures
            res matches HelmNode::ValueRef { path: p, pipeline, trim } && p@ == ".Values."@
                + path@ && pipeline@.len() == 0 && trim == Trim::NoTrim,
    {
        let mut p = String::from_str(".Values.");
        p.append(path);
        HelmNode::ValueRef { path: p, pipeline: Vec::new(), trim: Trim::NoTrim }
    }

    /// `{{- if .Values.<path> }}` body `{{- end }}`
    pub fn if_values(path: &str, body: Vec<Self>) -> (res: Self)
        ensures
            res matches HelmNode::If { condition, body: b, else_body } && condition@
                == ".Values."@ + path@ && b == body && else_body is None,
    {
        let mut c = String::from_str(".Values.");
        c.append(path);
        HelmNode::If { condition: c, body, else_body: None }
    }

    /// Raw YAML text.
    pub fn text(s: &str) -> (res: Self)
        ensures
            res matches HelmNode::Text(t) && t@ == s@,
    {
        HelmNode::Text(String::from_str(s))
    }

    /// The rendered template text of this node (what `Display` writes).
    pub fn to_text(&self) -> (res: String)
        ensures
            res@ == node_text(*self),
    {
        let mut out = String::new();
        render_node(self, &mut out);
        assert(out@ =~= node_text(*self));
        out
    }
}

/// The opening and closing delimiters for a trimming mode.
pub fn delimiters(trim: Trim) -> (res: (&'static str, &'static str))
    ensures
        res.0@ == open_delim(trim),
        res.1@ == close_delim(trim),
{
    match trim {
        Trim::NoTrim => ("{{", "}}"),
        Trim::Left => ("{{-", "}}"),
        Trim::Right => ("{{", "-}}"),
        Trim::Both => ("{{-", "-}}"),
    }
}

/// The text of one pipeline filter.
pub fn render_filter(filter: &PipeFilter) -> (res: String)
    ensures
        res@ == filter_text(*filter),
{
    match filter {
        PipeFilter::Quote => String::from_str("quote"),
        PipeFilter::Nindent(n) => {
            let mut s = String::from_str("nindent ");
            push_decimal(&mut s, *n as u64);
            s
        },
        PipeFilter::Indent(n) => {
            let mut s = String::from_str("indent ");
            push_decimal(&mut s, *n as u64);
            s
        },
        PipeFilter::ToYaml => String::from_str("toYaml"),
        PipeFilter::Upper => String::from_str("upper"),
        PipeFilter::Lower => String::from_str("lower"),
        PipeFilter::Default(v) => {
            let mut s = String::from_str("default \"");
            s.append(v.as_str());
            s.append("\"");
            s
        },
        PipeFilter::Trim => String::from_str("trim"),
    }
}

/// Appends the rendering of the nodes `nodes` to `out`.
fn render_all(nodes: &Vec<HelmNode>, out: &mut String)
    ensures
        final(out)@ == old(out)@ + nodes_text(nodes@),
    decreases nodes@,
{
    let ghost start = out@;
    let mut i: usize = 0;
    while i < nodes.len()
        invariant
            0 <= i <= nodes.len(),
            out@ == start + nodes_text(nodes@.take(i as int)),
        decreases nodes.len() - i,
    {
        proof {
            lemma_nodes_text_step(nodes@, i as int);
        }
        assert(decreases_to!(nodes@ => nodes@[i as int]));
        render_node(&nodes[i], out);
        i = i + 1;
    }
    assert(nodes@.take(nodes.len() as int) =~= nodes@);
}

/// Appends the rendering of `node` to `out`.
pub fn render_node(node: &HelmNode, out: &mut String)
    ensures
        final(out)@ == old(out)@ + node_text(*node),
    decreases *node,
{
    let ghost start = out@;
    match node {
        HelmNode::Text(text) => {
            out.append(text.as_str());
        },
        HelmNode::Include { template, context, trim } => {
            let (open, close) = delimiters(*trim);
            out.append(open);
            out.append(" include \"");
            out.append(template.as_str());
            out.append("\" ");
            out.append(context.as_str());
            out.append(" ");
            out.append(close);
            assert(out@ =~= start + node_text(*node));
        },
        HelmNode::ValueRef { path, pipeline, trim } => {
            let (open, close) = delimiters(*trim);
            out.append(open);
            out.append(" ");
            out.append(path.as_str());
            let ghost mid = out@;
            let mut i: usize = 0;
            while i < pipeline.len()
                invariant
                    0 <= i <= pipeline.len(),
                    out@ == mid + pipeline_text(pipeline@.take(i as int)),
                decreases pipeline.len() - i,
            {
                proof {
                    lemma_pipeline_text_step(pipeline@, i as int);
                }
                out.append(" | ");
                let f = render_filter(&pipeline[i]);
                out.append(f.as_str());
                i = i + 1;
            }
            assert(pipeline@.take(pipeline.len() as int) =~= pipeline@);
            out.append(" ");
            out.append(close);
            assert(out@ =~= start + node_text(*node));
        },
        HelmNode::If { condition, body, else_body } => {
            out.append("{{- if ");
            out.append(condition.as_str());
            out.append(" }}\n");
            render_all(body, out);
            match else_body {
                Some(else_nodes) => {
                    out.append("{{- else }}\n");
                    render_all(else_nodes, out);
                },
                None => {},
            }
            out.append("{{- end }}");
            assert(out@ =~= start + node_text(*node));
        },
        HelmNode::Range { over, body } => {
            out.append("{{- range ");
            out.append(over.as_str());
            out.append(" }}\n");
            render_all(body, out);
            out.append("{{- end }}");
            assert(out@ =~= start + node_text(*node));
        },
        HelmNode::Define { name, body } => {
            out.append("{{- define \"");
            out.append(name.as_str());
            out.append("\" -}}\n");
            render_all(body, out);
            out.append("{{- end -}}");
            assert(out@ =~= start + node_text(*node));
        },
        HelmNode::Comment(text) => {
            out.append("{{/* ");
            out.append(text.as_str());
            out.append(" */}}");
            assert(out@ =~= start + node_text(*node));
        },
    }
}

/// Renders a sequence of nodes to Helm template text.
pub fn render(nodes: &[HelmNode]) -> (res: String)
    ensures
        res@ == nodes_text(nodes@),
{
    let mut out = String::new();
    let mut i: usize = 0;
    while i < nodes.len()
        invariant
            0 <= i <= nodes.len(),
            out@ == nodes_text(nodes@.take(i as int)),
        decreases nodes.len() - i,
    {
        proof {
            lemma_nodes_text_step(nodes@, i as int);
        }
        render_node(&nodes[i], &mut out);
        i = i + 1;
    }
    assert(nodes@.take(nodes.len() as int) =~= nodes@);
    out
}

/// The strings that a filter carries hold no braces.
pub open spec fn filter_brace_free(f: PipeFilter) -> bool {
    match f {
        PipeFilter::Default(v) => brace_free(v@),
        _ => true,
    }
}

/// The strings that a node carries, its own and those of the nodes inside
/// it, hold no braces.
pub open spec fn node_brace_free(n: HelmNode) -> bool
    decreases n,
{
    match n {
        HelmNode::Text(t) => brace_free(t@),
        HelmNode::Include { template, context, .. } => brace_free(template@) && brace_free(context@),
        HelmNode::ValueRef { path, pipeline, .. } => brace_free(path@) && forall|j: int|
            0 <= j < pipeline@.len() ==> filter_brace_free(#[trigger] pipeline@[j]),
        HelmNode::If { condition, body, else_body } => brace_free(condition@) && nodes_brace_free(body@)
            && match else_body {
            Some(e) => nodes_brace_free(e@),
            None => true,
        },
        HelmNode::Range { over, body } => brace_free(over@) && nodes_brace_free(body@),
        HelmNode::Define { name, body } => brace_free(name@) && nodes_brace_free(body@),
        HelmNode::Comment(t) => brace_free(t@),
    }
}

/// Every node of `ns` is brace-free in the sense of [`node_brace_free`].
pub open spec fn nodes_brace_free(ns: Seq<HelmNode>) -> bool
    decreases ns,
{
    if ns.len() == 0 {
        true
    } else {
        nodes_brace_free(ns.drop_last()) && node_brace_free(ns.last())
    }
}

proof fn lemma_filter_brace_free(f: PipeFilter)
    requires
        filter_brace_free(f),
    ensures
        brace_free(filter_text(f)),
{
    match f {
        PipeFilter::Quote => {
            reveal_strlit("quote");
        },
        PipeFilter::Nindent(n) => {
            reveal_strlit("nindent ");
            lemma_decimal_brace_free(n as nat);
            lemma_brace_free_concat("nindent "@, decimal(n as nat));
        },
        PipeFilter::Indent(n) => {
            reveal_strlit("indent ");
            lemma_decimal_brace_free(n as nat);
            lemma_brace_free_concat("indent "@, decimal(n as nat));
        },
        PipeFilter::ToYaml => {
            reveal_strlit("toYaml");
        },
        PipeFilter::Upper => {
            reveal_strlit("upper");
        },
        PipeFilter::Lower => {
            reveal_strlit("lower");
        },
        PipeFilter::Default(v) => {
            reveal_strlit("default \"");
            reveal_strlit("\"");
            lemma_brace_free_concat("default \""@, v@);
            lemma_brace_free_concat("default \""@ + v@, "\""@);
        },
        PipeFilter::Trim => {
            reveal_strlit("trim");
        },
    }
}

proof fn lemma_pipeline_brace_free(p: Seq<PipeFilter>)
    requires
        forall|j: int| 0 <= j < p.len() ==> filter_brace_free(#[trigger] p[j]),
    ensures
        brace_free(pipeline_text(p)),
    decreases p.len(),
{
    if p.len() > 0 {
        let q = p.drop_last();
        assert forall|j: int| 0 <= j < q.len() implies filter_brace_free(#[trigger] q[j]) by {
            assert(q[j] == p[j]);
        }
        lemma_pipeline_brace_free(q);
        assert(filter_brace_free(p[p.len() - 1]));
        lemma_filter_brace_free(p.last());
        reveal_strlit(" | ");
        lemma_brace_free_concat(pipeline_text(q), " | "@);
        lemma_brace_free_concat(pipeline_text(q) + " | "@, filter_text(p.last()));
    }
}

proof fn lemma_open_safe(trim: Trim, after: Seq<char>)
    requires
        after.len() > 0,
        brace_free(after),
    ensures
        brace_safe(open_delim(trim) + after),
{
    let o = open_delim(trim);
    reveal_strlit("{{");
    reveal_strlit("{{-");
    let s = o + after;
    assert forall|i: int| 0 <= i && i + 2 < s.len() implies !(#[trigger] s[i] == '{' && s[i + 1] == '{' && s[i + 2] == '{') by {
        if i >= o.len() {
            assert(s[i] == after[i - o.len()]);
        } else if i + 2 >= o.len() {
            assert(s[o.len() as int] == after[0]);
        } else {
            assert(s[i + 2] == o[i + 2]);
        }
    }
    assert forall|i: int| 0 <= i && i + 2 < s.len() implies !(#[trigger] s[i] == '}' && s[i + 1] == '}' && s[i + 2] == '}') by {
        if i >= o.len() {
            assert(s[i] == after[i - o.len()]);
        } else {
            assert(s[i] == o[i]);
        }
    }
    assert(s.last() == after.last());
    assert(after[after.len() - 1] != '{');
    assert(s[0] == o[0]);
}

proof fn lemma_close_safe(before: Seq<char>, trim: Trim)
    requires
        before.len() > 0,
        brace_free(before),
    ensures
        brace_safe(before + close_delim(trim)),
{
    let c = close_delim(trim);
    reveal_strlit("}}");
    reveal_strlit("-}}");
    let s = before + c;
    let n = before.len();
    assert forall|i: int| 0 <= i && i + 2 < s.len() implies !(#[trigger] s[i] == '{' && s[i + 1] == '{' && s[i + 2] == '{') by {
        if i < n {
            assert(s[i] == before[i]);
        } else {
            assert(s[i] == c[i - n]);
        }
    }
    assert forall|i: int| 0 <= i && i + 2 < s.len() implies !(#[trigger] s[i] == '}' && s[i + 1] == '}' && s[i + 2] == '}') by {
        if i < n {
            assert(s[i] == before[i]);
        } else {
            assert(s[i] == c[i - n]);
        }
    }
    assert(s.last() == c.last());
    assert(s[0] == before[0]);
    assert(before[0] != '}');
}

proof fn lemma_literals_safe()
    ensures
        brace_safe("{{- if "@),
        brace_safe(" }}\n"@),
        brace_safe("{{- else }}\n"@),
        brace_safe("{{- end }}"@),
        brace_safe("{{- range "@),
        brace_safe("{{- define \""@),
        brace_safe("\" -}}\n"@),
        brace_safe("{{- end -}}"@),
        brace_safe("{{/* "@),
        brace_safe(" */}}"@),
        brace_free(" include \""@),
        brace_free("\" "@),
        brace_free(" "@),
{
    reveal_strlit("{{- if ");
    reveal_strlit(" }}\n");
    reveal_strlit("{{- else }}\n");
    reveal_strlit("{{- end }}");
    reveal_strlit("{{- range ");
    reveal_strlit("{{- define \"");
    reveal_strlit("\" -}}\n");
    reveal_strlit("{{- end -}}");
    reveal_strlit("{{/* ");
    reveal_strlit(" */}}");
    reveal_strlit(" include \"");
    reveal_strlit("\" ");
    reveal_strlit(" ");
}

proof fn lemma_literal_counts()
    ensures
        opens("{{- if "@) == 1 && closes("{{- if "@) == 0,
        opens(" }}\n"@) == 0 && closes(" }}\n"@) == 1,
        opens("{{- else }}\n"@) == 1 && closes("{{- else }}\n"@) == 1,
        opens("{{- end }}"@) == 1 && closes("{{- end }}"@) == 1,
        opens("{{- range "@) == 1 && closes("{{- range "@) == 0,
        opens("{{- define \""@) == 1 && closes("{{- define \""@) == 0,
        opens("\" -}}\n"@) == 0 && closes("\" -}}\n"@) == 1,
        opens("{{- end -}}"@) == 1 && closes("{{- end -}}"@) == 1,
        opens("{{/* "@) == 1 && closes("{{/* "@) == 0,
        opens(" */}}"@) == 0 && closes(" */}}"@) == 1,
{
    reveal_strlit("{{");
    reveal_strlit("}}");
    reveal_strlit("{{- if ");
    reveal_strlit("- if ");
    assert("{{- if "@ =~= "{{"@ + "- if "@);
    lemma_open_then("- if "@);
    reveal_strlit(" }}\n");
    reveal_strlit(" ");
    reveal_strlit("\n");
    assert(" }}\n"@ =~= " "@ + "}}"@ + "\n"@);
    lemma_then_close(" "@, "\n"@);
    reveal_strlit("{{- else }}\n");
    reveal_strlit("- else ");
    assert("{{- else }}\n"@ =~= "{{"@ + "- else "@ + "}}"@ + "\n"@);
    lemma_open_close("- else "@, "\n"@);
    reveal_strlit("{{- end }}");
    reveal_strlit("- end ");
    reveal_strlit("");
    assert("{{- end }}"@ =~= "{{"@ + "- end "@ + "}}"@ + ""@);
    lemma_open_close("- end "@, ""@);
    reveal_strlit("{{- range ");
    reveal_strlit("- range ");
    assert("{{- range "@ =~= "{{"@ + "- range "@);
    lemma_open_then("- range "@);
    reveal_strlit("{{- define \"");
    reveal_strlit("- define \"");
    assert("{{- define \""@ =~= "{{"@ + "- define \""@);
    lemma_open_then("- define \""@);
    reveal_strlit("\" -}}\n");
    reveal_strlit("\" -");
    assert("\" -}}\n"@ =~= "\" -"@ + "}}"@ + "\n"@);
    lemma_then_close("\" -"@, "\n"@);
    reveal_strlit("{{- end -}}");
    reveal_strlit("- end -");
    assert("{{- end -}}"@ =~= "{{"@ + "- end -"@ + "}}"@ + ""@);
    lemma_open_close("- end -"@, ""@);
    reveal_strlit("{{/* ");
    reveal_strlit("/* ");
    assert("{{/* "@ =~= "{{"@ + "/* "@);
    lemma_open_then("/* "@);
    reveal_strlit(" */}}");
    reveal_strlit(" */");
    assert(" */}}"@ =~= " */"@ + "}}"@ + ""@);
    lemma_then_close(" */"@, ""@);
}

/// An opening delimiter followed by text without braces.
proof fn lemma_open_delim_counts(trim: Trim, after: Seq<char>)
    requires
        brace_free(after),
    ensures
        opens(open_delim(trim) + after) == 1,
        closes(open_delim(trim) + after) == 0,
{
    reveal_strlit("{{");
    reveal_strlit("{{-");
    reveal_strlit("-");
    lemma_brace_free_concat("-"@, after);
    match trim {
        Trim::NoTrim | Trim::Right => {
            lemma_open_then(after);
        },
        Trim::Left | Trim::Both => {
            assert("{{-"@ + after =~= "{{"@ + ("-"@ + after));
            lemma_open_then("-"@ + after);
        },
    }
}

/// Text without braces followed by a closing delimiter.
proof fn lemma_close_delim_counts(before: Seq<char>, trim: Trim)
    requires
        brace_free(before),
    ensures
        opens(before + close_delim(trim)) == 0,
        closes(before + close_delim(trim)) == 1,
{
    reveal_strlit("}}");
    reveal_strlit("-}}");
    reveal_strlit("-");
    reveal_strlit("");
    lemma_brace_free_concat(before, "-"@);
    match trim {
        Trim::NoTrim | Trim::Left => {
            assert(before + "}}"@ =~= before + "}}"@ + ""@);
            lemma_then_close(before, ""@);
        },
        Trim::Right | Trim::Both => {
            assert(before + "-}}"@ =~= (before + "-"@) + "}}"@ + ""@);
            lemma_then_close(before + "-"@, ""@);
        },
    }
}

proof fn lemma_node_safe(n: HelmNode)
    requires
        node_brace_free(n),
    ensures
        brace_safe(node_text(n)),
        opens(node_text(n)) == closes(node_text(n)),
    decreases n,
{
    lemma_literals_safe();
    lemma_literal_counts();
    reveal_strlit(" include \"");
    reveal_strlit(" ");
    match n {
        HelmNode::Text(t) => {
            lemma_brace_free_safe(t@);
            lemma_counts_free(t@);
        },
        HelmNode::Include { template, context, trim } => {
            let a = open_delim(trim) + " include \""@;
            lemma_open_safe(trim, " include \""@);
            lemma_open_delim_counts(trim, " include \""@);
            lemma_safe_free_counts(a, template@);
            lemma_safe_free_counts(a + template@, "\" "@);
            lemma_safe_free_counts(a + template@ + "\" "@, context@);
            lemma_close_safe(" "@, trim);
            lemma_close_delim_counts(" "@, trim);
            let d = a + template@ + "\" "@ + context@;
            lemma_safe_safe_counts(d, " "@ + close_delim(trim));
            assert(d + " "@ + close_delim(trim) =~= d + (" "@ + close_delim(trim)));
        },
        HelmNode::ValueRef { path, pipeline, trim } => {
            let a = open_delim(trim) + " "@;
            lemma_open_safe(trim, " "@);
            lemma_open_delim_counts(trim, " "@);
            lemma_safe_free_counts(a, path@);
            lemma_pipeline_brace_free(pipeline@);
            lemma_safe_free_counts(a + path@, pipeline_text(pipeline@));
            lemma_close_safe(" "@, trim);
            lemma_close_delim_counts(" "@, trim);
            let d = a + path@ + pipeline_text(pipeline@);
            lemma_safe_safe_counts(d, " "@ + close_delim(trim));
            assert(d + " "@ + close_delim(trim) =~= d + (" "@ + close_delim(trim)));
        },
        HelmNode::If { condition, body, else_body } => {
            lemma_safe_free_counts("{{- if "@, condition@);
            let a = "{{- if "@ + condition@ + " }}\n"@;
            lemma_safe_safe_counts("{{- if "@ + condition@, " }}\n"@);
            lemma_node_safe_all(body@);
            lemma_safe_safe_counts(a, nodes_text(body@));
            let tail = match else_body {
                Some(e) => "{{- else }}\n"@ + nodes_text(e@),
                None => Seq::empty(),
            };
            match else_body {
                Some(e) => {
                    lemma_node_safe_all(e@);
                    lemma_safe_safe_counts("{{- else }}\n"@, nodes_text(e@));
                },
                None => {
                    lemma_brace_free_safe(tail);
                    lemma_counts_free(tail);
                },
            }
            lemma_safe_safe_counts(a + nodes_text(body@), tail);
            lemma_safe_safe_counts(a + nodes_text(body@) + tail, "{{- end }}"@);
        },
        HelmNode::Range { over, body } => {
            lemma_safe_free_counts("{{- range "@, over@);
            lemma_safe_safe_counts("{{- range "@ + over@, " }}\n"@);
            lemma_node_safe_all(body@);
            lemma_safe_safe_counts("{{- range "@ + over@ + " }}\n"@, nodes_text(body@));
            lemma_safe_safe_counts("{{- range "@ + over@ + " }}\n"@ + nodes_text(body@), "{{- end }}"@);
        },
        HelmNode::Define { name, body } => {
            lemma_safe_free_counts("{{- define \""@, name@);
            lemma_safe_safe_counts("{{- define \""@ + name@, "\" -}}\n"@);
            lemma_node_safe_all(body@);
            lemma_safe_safe_counts("{{- define \""@ + name@ + "\" -}}\n"@, nodes_text(body@));
            lemma_safe_safe_counts("{{- define \""@ + name@ + "\" -}}\n"@ + nodes_text(body@), "{{- end -}}"@);
        },
        HelmNode::Comment(t) => {
            lemma_safe_free_counts("{{/* "@, t@);
            lemma_safe_safe_counts("{{/* "@ + t@, " */}}"@);
        },
    }
}

proof fn lemma_node_safe_all(ns: Seq<HelmNode>)
    requires
        nodes_brace_free(ns),
    ensures
        brace_safe(nodes_text(ns)),
        opens(nodes_text(ns)) == closes(nodes_text(ns)),
    decreases ns,
{
    if ns.len() > 0 {
        lemma_node_safe_all(ns.drop_last());
        lemma_node_safe(ns.last());
        lemma_safe_safe_counts(nodes_text(ns.drop_last()), node_text(ns.last()));
    } else {
        lemma_brace_free_safe(Seq::<char>::empty());
        lemma_counts_free(Seq::<char>::empty());
    }
}

/// When the strings that the nodes carry hold no braces themselves,
/// rendering never writes three braces in a row (`{{{` or `}}}`), and it
/// writes `{{` exactly as often as `}}`.
pub proof fn render_is_well_braced(ns: Seq<HelmNode>)
    requires
        nodes_brace_free(ns),
    ensures
        well_braced(nodes_text(ns)),
{
    lemma_node_safe_all(ns);
}

/// A block wraps its body: an `if` renders as its opening action, then the
/// rendering of its body (and, with an else branch, `{{- else }}` and the
/// rendering of that branch), then `{{- end }}`; a `range` likewise; a
/// `define` as its opening action, the rendering of its body and
/// `{{- end -}}`. So nothing of a body is rendered outside its block.
pub proof fn blocks_wrap_their_bodies(cond: String, body: Vec<HelmNode>, other: Vec<HelmNode>)
    ensures
        nodes_text(seq![HelmNode::If { condition: cond, body, else_body: None }]) == "{{- if "@ + cond@ + " }}\n"@
            + nodes_text(body@) + "{{- end }}"@,
        nodes_text(seq![HelmNode::If { condition: cond, body, else_body: Some(other) }]) == "{{- if "@ + cond@
            + " }}\n"@ + nodes_text(body@) + "{{- else }}\n"@ + nodes_text(other@) + "{{- end }}"@,
        nodes_text(seq![HelmNode::Range { over: cond, body }]) == "{{- range "@ + cond@ + " }}\n"@ + nodes_text(
            body@,
        ) + "{{- end }}"@,
        nodes_text(seq![HelmNode::Define { name: cond, body }]) == "{{- define \""@ + cond@ + "\" -}}\n"@
            + nodes_text(body@) + "{{- end -}}"@,
{
    let n1 = HelmNode::If { condition: cond, body, else_body: None };
    let n2 = HelmNode::If { condition: cond, body, else_body: Some(other) };
    let n3 = HelmNode::Range { over: cond, body };
    let n4 = HelmNode::Define { name: cond, body };
    render_single(n1);
    render_single(n2);
    render_single(n3);
    render_single(n4);
    assert(node_text(n1) =~= "{{- if "@ + cond@ + " }}\n"@ + nodes_text(body@) + Seq::<char>::empty() + "{{- end }}"@);
    assert(nodes_text(body@) + Seq::<char>::empty() =~= nodes_text(body@));
    assert(node_text(n2) =~= "{{- if "@ + cond@ + " }}\n"@ + nodes_text(body@) + ("{{- else }}\n"@ + nodes_text(other@))
        + "{{- end }}"@);
}

} // verus!
