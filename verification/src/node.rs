//! Document tree.
//!
//! The badge document is assembled as a plain tree of nodes — tag,
//! attributes, text content, ordered children — and serialized to markup
//! afterward; construction and serialization are separate stages.
use vstd::prelude::*;
use vstd::string::StrSliceExecFns;
use vstd::string::StringExecFns;

verus! {

/// One element of the output document.
pub struct SvgNode {
    /// Element name; written as-is.
    pub tag: String,
    /// Attribute names and values, in writing order; values are escaped
    /// when serialized.
    pub attrs: Vec<(String, String)>,
    /// Text content, written (escaped) before any children.
    pub text: String,
    /// Child elements, in writing order.
    pub children: Vec<SvgNode>,
}

/// The escaped form of one character of attribute or text content.
pub open spec fn escape_char(c: char) -> Seq<char> {
    if c == '&' {
        seq!['&', 'a', 'm', 'p', ';']
    } else if c == '<' {
        seq!['&', 'l', 't', ';']
    } else if c == '>' {
        seq!['&', 'g', 't', ';']
    } else if c == '"' {
        seq!['&', 'q', 'u', 'o', 't', ';']
    } else {
        seq![c]
    }
}

/// The escaped form of a text: each character escaped, in order.
pub open spec fn spec_escape(s: Seq<char>) -> Seq<char>
    decreases s.len(),
{
    if s.len() == 0 {
        Seq::<char>::empty()
    } else {
        spec_escape(s.drop_last()) + escape_char(s.last())
    }
}

/// The serialized form of one attribute: a leading space, the name, `="`,
/// the escaped value, and a closing quote.
pub open spec fn spec_attr_str(name: Seq<char>, value: Seq<char>) -> Seq<char> {
    seq![' '] + name + seq!['=', '"'] + spec_escape(value) + seq!['"']
}

/// The serialized attribute list, in order.
pub open spec fn spec_attrs_str(attrs: Seq<(String, String)>) -> Seq<char>
    decreases attrs.len(),
{
    if attrs.len() == 0 {
        Seq::<char>::empty()
    } else {
        spec_attrs_str(attrs.drop_last()) + spec_attr_str(attrs.last().0@, attrs.last().1@)
    }
}

/// The serialized form of a node: a self-closing tag when it has neither
/// text nor children, otherwise the open tag, escaped text, serialized
/// children and close tag.
pub open spec fn spec_node_str(n: SvgNode) -> Seq<char>
    decreases n,
{
    seq!['<'] + n.tag@ + spec_attrs_str(n.attrs@) + (if n.text@.len() == 0 && n.children@.len()
        == 0 {
        seq!['/', '>']
    } else {
        seq!['>'] + spec_escape(n.text@) + spec_nodes_str(n.children@) + seq!['<', '/'] + n.tag@
            + seq!['>']
    })
}

/// The concatenated serialized forms of a node list, in order.
pub open spec fn spec_nodes_str(cs: Seq<SvgNode>) -> Seq<char>
    decreases cs,
{
    if cs.len() == 0 {
        Seq::<char>::empty()
    } else {
        spec_nodes_str(cs.drop_last()) + spec_node_str(cs.last())
    }
}

/// Appends the escaped form of `s` to `out`.
pub fn escape_into(out: &mut String, s: &str)
    ensures
        final(out)@ == old(out)@ + spec_escape(s@),
{
    proof {
        reveal_strlit("&amp;");
        reveal_strlit("&lt;");
        reveal_strlit("&gt;");
        reveal_strlit("&quot;");
    }
    let n: usize = s.unicode_len();
    let mut i: usize = 0;
    proof {
        assert(s@.take(0) =~= Seq::<char>::empty());
    }
    while i < n
        invariant
            n == s@.len(),
            0 <= i <= n,
            out@ == old(out)@ + spec_escape(s@.take(i as int)),
        decreases n - i,
    {
        proof {
            let t1 = s@.take(i as int + 1);
            assert(t1.drop_last() =~= s@.take(i as int));
            assert(t1.last() == s@[i as int]);
            assert(spec_escape(t1) == spec_escape(s@.take(i as int)) + escape_char(s@[i as int]));
        }
        let c = s.get_char(i);
        let ghost pre = out@;
        let ghost ec = escape_char(s@[i as int]);
        if c == '&' {
            out.append("&amp;");
            proof {
                reveal_strlit("&amp;");
                assert(out@ =~= pre + ec);
            }
        } else if c == '<' {
            out.append("&lt;");
            proof {
                reveal_strlit("&lt;");
                assert(out@ =~= pre + ec);
            }
        } else if c == '>' {
            out.append("&gt;");
            proof {
                reveal_strlit("&gt;");
                assert(out@ =~= pre + ec);
            }
        } else if c == '"' {
            out.append("&quot;");
            proof {
                reveal_strlit("&quot;");
                assert(out@ =~= pre + ec);
            }
        } else {
            let piece = s.substring_char(i, i + 1);
            proof {
                assert(piece@ =~= seq![s@[i as int]]);
            }
            out.append(piece);
            proof {
                assert(out@ =~= pre + ec);
            }
        }
        proof {
            assert(out@ =~= old(out)@ + spec_escape(s@.take(i as int + 1)));
        }
        i = i + 1;
    }
    proof {
        assert(s@.take(n as int) =~= s@);
    }
}

/// Appends the serialized attribute list to `out`.
fn write_attrs(out: &mut String, attrs: &Vec<(String, String)>)
    ensures
        final(out)@ == old(out)@ + spec_attrs_str(attrs@),
{
    proof {
        reveal_strlit(" ");
        reveal_strlit("=\"");
        reveal_strlit("\"");
    }
    let mut i: usize = 0;
    proof {
        assert(attrs@.take(0) =~= Seq::<(String, String)>::empty());
        assert(out@ =~= old(out)@ + spec_attrs_str(attrs@.take(0)));
    }
    while i < attrs.len()
        invariant
            0 <= i <= attrs@.len(),
            out@ == old(out)@ + spec_attrs_str(attrs@.take(i as int)),
        decreases attrs@.len() - i,
    {
        proof {
            let t1 = attrs@.take(i as int + 1);
            assert(t1.drop_last() =~= attrs@.take(i as int));
            assert(t1.last() == attrs@[i as int]);
            assert(spec_attrs_str(t1) == spec_attrs_str(attrs@.take(i as int)) + spec_attr_str(
                attrs@[i as int].0@,
                attrs@[i as int].1@,
            ));
        }
        out.append(" ");
        out.append(attrs[i].0.as_str());
        out.append("=\"");
        escape_into(out, attrs[i].1.as_str());
        out.append("\"");
        proof {
            reveal_strlit(" ");
            reveal_strlit("=\"");
            reveal_strlit("\"");
            assert(out@ =~= old(out)@ + spec_attrs_str(attrs@.take(i as int + 1)));
        }
        i = i + 1;
    }
    proof {
        assert(attrs@.take(attrs@.len() as int) =~= attrs@);
    }
}

/// Appends the serialized form of `n` to `out`.
pub fn write_node(out: &mut String, n: &SvgNode)
    ensures
        final(out)@ == old(out)@ + spec_node_str(*n),
    decreases *n,
{
    out.append("<");
    out.append(n.tag.as_str());
    write_attrs(out, &n.attrs);
    if n.text.as_str().is_empty() && n.children.len() == 0 {
        out.append("/>");
        proof {
            reveal_strlit("<");
            reveal_strlit("/>");
            assert(final(out)@ =~= old(out)@ + spec_node_str(*n));
        }
        return ;
    }
    out.append(">");
    escape_into(out, n.text.as_str());
    let ghost mid = out@;
    let mut i: usize = 0;
    proof {
        assert(n.children@.take(0) =~= Seq::<SvgNode>::empty());
        assert(out@ =~= mid + spec_nodes_str(n.children@.take(0)));
    }
    while i < n.children.len()
        invariant
            0 <= i <= n.children@.len(),
            out@ == mid + spec_nodes_str(n.children@.take(i as int)),
        decreases n.children@.len() - i,
    {
        proof {
            let t1 = n.children@.take(i as int + 1);
            assert(t1.drop_last() =~= n.children@.take(i as int));
            assert(t1.last() == n.children@[i as int]);
            assert(spec_nodes_str(t1) == spec_nodes_str(n.children@.take(i as int))
                + spec_node_str(n.children@[i as int]));
            assert(decreases_to!(*n => n.children@[i as int]));
        }
        write_node(out, &n.children[i]);
        proof {
            assert(out@ =~= mid + spec_nodes_str(n.children@.take(i as int + 1)));
        }
        i = i + 1;
    }
    proof {
        assert(n.children@.take(n.children@.len() as int) =~= n.children@);
    }
    out.append("</");
    out.append(n.tag.as_str());
    out.append(">");
    proof {
        reveal_strlit("<");
        reveal_strlit(">");
        reveal_strlit("</");
        assert(final(out)@ =~= old(out)@ + spec_node_str(*n));
    }
}

/// Serializes a whole document tree.
pub fn node_to_string(n: &SvgNode) -> (r: String)
    ensures
        r@ == spec_node_str(*n),
{
    let mut out = String::new();
    write_node(&mut out, n);
    proof {
        assert(out@ =~= spec_node_str(*n));
    }
    out
}

} // verus!
