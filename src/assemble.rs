use vstd::prelude::*;
use vstd::string::*;
use crate::arch::{Architecture, arch_name, arch_to_str};
use crate::store::{DeclStore, EntryView, scope_view};
use crate::text::indent;

verus! {

/// Scopes in the order of their first entry.
pub open spec fn scopes_of(s: Seq<EntryView>) -> Seq<Option<Seq<char>>>
    decreases s.len(),
{
    if s.len() == 0 {
        Seq::empty()
    } else {
        let p = scopes_of(s.drop_last());
        if p.contains(s.last().0.0) {
            p
        } else {
            p.push(s.last().0.0)
        }
    }
}

/// Bodies inside a named scope are indented once.
pub open spec fn scope_indent(scope: Option<Seq<char>>) -> Seq<char> {
    if scope is Some {
        indent()
    } else {
        Seq::empty()
    }
}

pub open spec fn arch_alt(a: Architecture, ind: Seq<char>) -> Seq<char> {
    ind + indent() + "target_arch = \""@ + arch_name(a) + "\""@
}

pub open spec fn alternatives(archs: Seq<Architecture>, ind: Seq<char>, n: nat) -> Seq<char>
    decreases n,
{
    if n == 0 {
        Seq::empty()
    } else if n == 1 {
        arch_alt(archs[0], ind)
    } else {
        alternatives(archs, ind, (n - 1) as nat) + ",\n"@ + arch_alt(archs[n - 1], ind)
    }
}

/// The attribute that restricts a declaration to the architectures `archs`.
pub open spec fn gate(archs: Seq<Architecture>, ind: Seq<char>) -> Seq<char> {
    if archs.len() == 1 {
        "#[cfg(target_arch = \""@ + arch_name(archs[0]) + "\")]"@
    } else {
        "#[cfg(any(\n"@ + alternatives(archs, ind, archs.len()) + "\n"@ + ind + "))]"@
    }
}

pub open spec fn render_decl(scope: Option<Seq<char>>, body: Seq<char>, archs: Seq<Architecture>) -> Seq<char> {
    let ind = scope_indent(scope);
    "\n"@ + ind + gate(archs, ind) + "\n"@ + ind + body + "\n"@
}

/// The rendering of the entries among the first `n` that lie in `scope`.
pub open spec fn render_bodies(s: Seq<EntryView>, scope: Option<Seq<char>>, n: nat) -> Seq<char>
    decreases n,
{
    if n == 0 || n > s.len() {
        Seq::empty()
    } else {
        render_bodies(s, scope, (n - 1) as nat) + if s[n - 1].0.0 == scope {
            render_decl(scope, s[n - 1].0.1, s[n - 1].1)
        } else {
            Seq::empty()
        }
    }
}

pub open spec fn scope_open(scope: Option<Seq<char>>) -> Seq<char> {
    match scope {
        Some(p) => "\n"@ + p + " {"@,
        None => Seq::empty(),
    }
}

pub open spec fn scope_close(scope: Option<Seq<char>>) -> Seq<char> {
    match scope {
        Some(p) => "}\n"@,
        None => Seq::empty(),
    }
}

pub open spec fn render_scope(s: Seq<EntryView>, scope: Option<Seq<char>>) -> Seq<char> {
    scope_open(scope) + render_bodies(s, scope, s.len()) + scope_close(scope)
}

pub open spec fn render_scopes(s: Seq<EntryView>, sc: Seq<Option<Seq<char>>>, n: nat) -> Seq<char>
    decreases n,
{
    if n == 0 || n > sc.len() {
        Seq::empty()
    } else {
        render_scopes(s, sc, (n - 1) as nat) + render_scope(s, sc[n - 1])
    }
}

/// The source text of a store: each scope once, in order of first use, with
/// its bodies in insertion order, each behind its architecture gate.
pub open spec fn render(s: Seq<EntryView>) -> Seq<char> {
    render_scopes(s, scopes_of(s), scopes_of(s).len())
}

fn scope_eq(a: &Option<String>, b: &Option<String>) -> (r: bool)
    ensures
        r == (scope_view(*a) == scope_view(*b)),
{
    match (a, b) {
        (Some(x), Some(y)) => x.eq(y),
        (None, None) => true,
        _ => false,
    }
}

fn clone_scope(a: &Option<String>) -> (r: Option<String>)
    ensures
        scope_view(r) == scope_view(*a),
{
    match a {
        Some(x) => Some(x.clone()),
        None => None,
    }
}

pub open spec fn scope_views(v: Seq<Option<String>>) -> Seq<Option<Seq<char>>> {
    v.map_values(|o: Option<String>| scope_view(o))
}

fn collect_scopes(store: &DeclStore) -> (r: Vec<Option<String>>)
    ensures
        scope_views(r@) == scopes_of(store@),
{
    let n = store.len();
    let mut r: Vec<Option<String>> = Vec::new();
    let mut i: usize = 0;
    while i < n
        invariant
            n == store@.len(),
            i <= n,
            scope_views(r@) == scopes_of(store@.subrange(0, i as int)),
        decreases n - i,
    {
        let (scope, _, _) = store.get(i);
        let mut found = false;
        let mut j: usize = 0;
        while j < r.len()
            invariant
                j <= r@.len(),
                found == scope_views(r@).subrange(0, j as int).contains(scope_view(*scope)),
            decreases r@.len() - j,
        {
            let e = scope_eq(&r[j], scope);
            proof {
                let s0 = scope_views(r@).subrange(0, j as int);
                let s1 = scope_views(r@).subrange(0, j + 1);
                assert(s1 =~= s0.push(scope_view(r@[j as int])));
                if s0.contains(scope_view(*scope)) {
                    let w = choose|w: int| 0 <= w < s0.len() && s0[w] == scope_view(*scope);
                    assert(s1[w] == scope_view(*scope));
                }
                if e {
                    assert(s1[j as int] == scope_view(*scope));
                }
                if s1.contains(scope_view(*scope)) {
                    let w = choose|w: int| 0 <= w < s1.len() && s1[w] == scope_view(*scope);
                    if w < j {
                        assert(s0[w] == scope_view(*scope));
                    }
                }
            }
            if e {
                found = true;
            }
            j = j + 1;
        }
        proof {
            assert(scope_views(r@).subrange(0, j as int) =~= scope_views(r@));
            assert(store@.subrange(0, i + 1).drop_last() =~= store@.subrange(0, i as int));
        }
        if !found {
            r.push(clone_scope(scope));
            proof {
                assert(scope_views(r@) =~= scopes_of(store@.subrange(0, i as int)).push(
                    scope_view(*scope),
                ));
            }
        }
        i = i + 1;
    }
    proof {
        assert(store@.subrange(0, n as int) =~= store@);
    }
    r
}

fn write_gate(archs: &Vec<Architecture>, in_scope: bool, buf: &mut String)
    requires
        archs@.len() > 0,
    ensures
        final(buf)@ == old(buf)@ + gate(
            archs@,
            if in_scope {
                indent()
            } else {
                Seq::empty()
            },
        ),
{
    let ghost ind = if in_scope {
        indent()
    } else {
        Seq::<char>::empty()
    };
    let ind_str = if in_scope {
        "    "
    } else {
        ""
    };
    proof {
        reveal_strlit("");
    }
    if archs.len() == 1 {
        buf.append("#[cfg(target_arch = \"");
        buf.append(arch_to_str(&archs[0]));
        buf.append("\")]");
        proof {
            assert(buf@ =~= old(buf)@ + gate(archs@, ind));
        }
    } else {
        buf.append("#[cfg(any(\n");
        let ghost start = buf@;
        let mut k: usize = 0;
        while k < archs.len()
            invariant
                k <= archs@.len(),
                ind_str@ == ind,
                buf@ == start + alternatives(archs@, ind, k as nat),
            decreases archs@.len() - k,
        {
            if k > 0 {
                buf.append(",\n");
            }
            buf.append(ind_str);
            buf.append("    ");
            buf.append("target_arch = \"");
            buf.append(arch_to_str(&archs[k]));
            buf.append("\"");
            k = k + 1;
            proof {
                assert(buf@ =~= start + alternatives(archs@, ind, k as nat));
            }
        }
        buf.append("\n");
        buf.append(ind_str);
        buf.append("))]");
        proof {
            assert(buf@ =~= old(buf)@ + gate(archs@, ind));
        }
    }
}

fn write_decl(scope: &Option<String>, body: &String, archs: &Vec<Architecture>, buf: &mut String)
    requires
        archs@.len() > 0,
    ensures
        final(buf)@ == old(buf)@ + render_decl(scope_view(*scope), body@, archs@),
{
    let in_scope = scope.is_some();
    let ind_str = if in_scope {
        "    "
    } else {
        ""
    };
    proof {
        reveal_strlit("");
    }
    buf.append("\n");
    buf.append(ind_str);
    write_gate(archs, in_scope, buf);
    buf.append("\n");
    buf.append(ind_str);
    buf.append(body.as_str());
    buf.append("\n");
    proof {
        assert(buf@ =~= old(buf)@ + render_decl(scope_view(*scope), body@, archs@));
    }
}

impl DeclStore {
    /// Renders the collected declarations as source text.
    pub fn render(&self) -> (r: String)
        requires
            self.wf(),
        ensures
            r@ == render(self@),
    {
        let scopes = collect_scopes(self);
        let n = self.len();
        let mut buf = String::new();
        let mut k: usize = 0;
        while k < scopes.len()
            invariant
                n == self@.len(),
                self.wf(),
                k <= scopes@.len(),
                scope_views(scopes@) == scopes_of(self@),
                buf@ == render_scopes(self@, scopes_of(self@), k as nat),
            decreases scopes@.len() - k,
        {
            let scope = &scopes[k];
            let ghost sv = scope_view(*scope);
            assert(sv == scopes_of(self@)[k as int]);
            let ghost before = buf@;
            match scope {
                Some(p) => {
                    buf.append("\n");
                    buf.append(p.as_str());
                    buf.append(" {");
                },
                None => {},
            }
            proof {
                assert(buf@ =~= before + scope_open(sv));
            }
            let mut i: usize = 0;
            while i < n
                invariant
                    n == self@.len(),
                    self.wf(),
                    i <= n,
                    sv == scope_view(*scope),
                    buf@ == before + scope_open(sv) + render_bodies(self@, sv, i as nat),
                decreases n - i,
            {
                let (s, body, archs) = self.get(i);
                if scope_eq(s, scope) {
                    write_decl(s, body, archs, &mut buf);
                }
                i = i + 1;
                proof {
                    assert(buf@ =~= before + scope_open(sv) + render_bodies(self@, sv, i as nat));
                }
            }
            if scope.is_some() {
                buf.append("}\n");
            }
            k = k + 1;
            proof {
                assert(buf@ =~= render_scopes(self@, scopes_of(self@), k as nat));
            }
        }
        buf
    }
}

} // verus!
