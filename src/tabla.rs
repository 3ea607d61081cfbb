//! Keyed tables held as sequences of (key, value) pairs with unique keys:
//! one kind keyed by participant, one keyed by category name.
use vstd::prelude::*;

use crate::cuenta::AccountId;

verus! {

// ---- tables keyed by participant ----

/// Whether `a` is a key of `s`.
pub open spec fn tiene_clave<V>(s: Seq<(AccountId, V)>, a: AccountId) -> bool {
    exists|i: int| 0 <= i < s.len() && s[i].0 == a
}

/// The position of key `a` in `s` (meaningful when `tiene_clave(s, a)`).
pub open spec fn indice_de<V>(s: Seq<(AccountId, V)>, a: AccountId) -> int {
    choose|i: int| 0 <= i < s.len() && s[i].0 == a
}

/// The value that `s` holds for `a`, if any.
pub open spec fn valor_de<V>(s: Seq<(AccountId, V)>, a: AccountId) -> Option<V> {
    if tiene_clave(s, a) {
        Some(s[indice_de(s, a)].1)
    } else {
        None
    }
}

/// No key occurs twice in `s`.
pub open spec fn claves_unicas<V>(s: Seq<(AccountId, V)>) -> bool {
    forall|i: int, j: int| 0 <= i < s.len() && 0 <= j < s.len() && s[i].0 == s[j].0 ==> i == j
}

/// `s` with `a` bound to `v`: the entry of `a` replaced in place, or a new
/// entry appended at the end.
pub open spec fn con_valor<V>(s: Seq<(AccountId, V)>, a: AccountId, v: V) -> Seq<(AccountId, V)> {
    if tiene_clave(s, a) {
        s.update(indice_de(s, a), (a, v))
    } else {
        s.push((a, v))
    }
}

/// With unique keys, a position holding key `a` is the position of `a`.
pub proof fn lema_indice_unico<V>(s: Seq<(AccountId, V)>, a: AccountId, i: int)
    requires
        claves_unicas(s),
        0 <= i < s.len(),
        s[i].0 == a,
    ensures
        tiene_clave(s, a),
        indice_de(s, a) == i,
        valor_de(s, a) == Some(s[i].1),
{
    assert(tiene_clave(s, a));
    let j = indice_de(s, a);
    assert(s[j].0 == a);
}

/// Binding a key keeps keys unique, binds that key, and leaves the others.
pub proof fn lema_con_valor<V>(s: Seq<(AccountId, V)>, a: AccountId, v: V)
    requires
        claves_unicas(s),
    ensures
        claves_unicas(con_valor(s, a, v)),
        valor_de(con_valor(s, a, v), a) == Some(v),
        forall|b: AccountId| b != a ==> valor_de(con_valor(s, a, v), b) == valor_de(s, b),
        forall|b: AccountId| #[trigger] tiene_clave(con_valor(s, a, v), b) <==> (b == a || tiene_clave(s, b)),
{
    let t = con_valor(s, a, v);
    if tiene_clave(s, a) {
        let k = indice_de(s, a);
        assert(s[k].0 == a);
        assert(claves_unicas(t));
        lema_indice_unico(t, a, k);
        assert forall|b: AccountId| b != a implies valor_de(t, b) == valor_de(s, b) by {
            if tiene_clave(s, b) {
                let i = indice_de(s, b);
                assert(s[i].0 == b);
                assert(t[i].0 == b);
                lema_indice_unico(t, b, i);
            } else {
                if tiene_clave(t, b) {
                    let i = indice_de(t, b);
                    assert(s[i].0 == b);
                }
            }
        }
        assert forall|b: AccountId| #[trigger] tiene_clave(t, b) <==> (b == a || tiene_clave(s, b)) by {
            if tiene_clave(s, b) {
                let i = indice_de(s, b);
                assert(s[i].0 == b);
                assert(t[i].0 == b);
            }
            if tiene_clave(t, b) && b != a {
                let i = indice_de(t, b);
                assert(s[i].0 == b);
            }
        }
    } else {
        assert(claves_unicas(t)) by {
            assert forall|i: int, j: int|
                0 <= i < t.len() && 0 <= j < t.len() && t[i].0 == t[j].0 implies i == j by {
                if i < s.len() && j == s.len() {
                    assert(s[i].0 == a);
                }
                if j < s.len() && i == s.len() {
                    assert(s[j].0 == a);
                }
            }
        }
        lema_indice_unico(t, a, s.len() as int);
        assert forall|b: AccountId| b != a implies valor_de(t, b) == valor_de(s, b) by {
            if tiene_clave(s, b) {
                let i = indice_de(s, b);
                assert(s[i].0 == b);
                assert(t[i].0 == b);
                lema_indice_unico(t, b, i);
            } else {
                if tiene_clave(t, b) {
                    let i = indice_de(t, b);
                    assert(s[i].0 == b);
                }
            }
        }
        assert forall|b: AccountId| #[trigger] tiene_clave(t, b) <==> (b == a || tiene_clave(s, b)) by {
            if tiene_clave(s, b) {
                let i = indice_de(s, b);
                assert(s[i].0 == b);
                assert(t[i].0 == b);
            }
            if tiene_clave(t, b) && b != a {
                let i = indice_de(t, b);
                assert(s[i].0 == b);
            }
        }
    }
}

/// The position of `a` in `s`, or `None` when `a` is not a key.
pub fn buscar_cuenta<V>(s: &Vec<(AccountId, V)>, a: &AccountId) -> (r: Option<usize>)
    requires
        claves_unicas(s@),
    ensures
        match r {
            Some(i) => i < s@.len() && s@[i as int].0 == *a && tiene_clave(s@, *a) && indice_de(
                s@,
                *a,
            ) == i as int && valor_de(s@, *a) == Some(s@[i as int].1),
            None => !tiene_clave(s@, *a) && valor_de(s@, *a) == None::<V>,
        },
{
    let mut i: usize = 0;
    while i < s.len()
        invariant
            0 <= i <= s@.len(),
            claves_unicas(s@),
            forall|j: int| 0 <= j < i ==> s@[j].0 != *a,
        decreases s@.len() - i,
    {
        if s[i].0 == *a {
            proof {
                lema_indice_unico(s@, *a, i as int);
            }
            return Some(i);
        }
        i = i + 1;
    }
    None
}

/// Binds `a` to `v` in `s`.
pub fn asignar_cuenta<V>(s: &mut Vec<(AccountId, V)>, a: AccountId, v: V)
    requires
        claves_unicas(old(s)@),
    ensures
        final(s)@ == con_valor(old(s)@, a, v),
{
    match buscar_cuenta(s, &a) {
        Some(i) => {
            s.set(i, (a, v));
        },
        None => {
            s.push((a, v));
        },
    }
}

// ---- tables keyed by category name ----

/// Whether `a` is a key of `s`.
pub open spec fn tiene_nombre<V>(s: Seq<(String, V)>, a: Seq<char>) -> bool {
    exists|i: int| 0 <= i < s.len() && s[i].0@ == a
}

/// The position of key `a` in `s` (meaningful when `tiene_nombre(s, a)`).
pub open spec fn indice_nombre<V>(s: Seq<(String, V)>, a: Seq<char>) -> int {
    choose|i: int| 0 <= i < s.len() && s[i].0@ == a
}

/// The value that `s` holds for `a`, if any.
pub open spec fn valor_nombre<V>(s: Seq<(String, V)>, a: Seq<char>) -> Option<V> {
    if tiene_nombre(s, a) {
        Some(s[indice_nombre(s, a)].1)
    } else {
        None
    }
}

/// No key occurs twice in `s`.
pub open spec fn nombres_unicos<V>(s: Seq<(String, V)>) -> bool {
    forall|i: int, j: int| 0 <= i < s.len() && 0 <= j < s.len() && s[i].0@ == s[j].0@ ==> i == j
}

/// `s` with `a` bound to `v`: the entry of `a` replaced in place, or a new
/// entry appended at the end.
pub open spec fn con_valor_nombre<V>(s: Seq<(String, V)>, k: String, v: V) -> Seq<(String, V)> {
    if tiene_nombre(s, k@) {
        s.update(indice_nombre(s, k@), (k, v))
    } else {
        s.push((k, v))
    }
}

/// With unique names, a position holding name `a` is the position of `a`.
pub proof fn lema_indice_nombre<V>(s: Seq<(String, V)>, a: Seq<char>, i: int)
    requires
        nombres_unicos(s),
        0 <= i < s.len(),
        s[i].0@ == a,
    ensures
        tiene_nombre(s, a),
        indice_nombre(s, a) == i,
        valor_nombre(s, a) == Some(s[i].1),
{
    assert(tiene_nombre(s, a));
    let j = indice_nombre(s, a);
    assert(s[j].0@ == a);
}

/// Binding a name keeps keys unique, binds that key, and leaves the others.
pub proof fn lema_con_nombre<V>(s: Seq<(String, V)>, k: String, v: V)
    requires
        nombres_unicos(s),
    ensures
        nombres_unicos(con_valor_nombre(s, k, v)),
        valor_nombre(con_valor_nombre(s, k, v), k@) == Some(v),
        forall|b: Seq<char>| b != k@ ==> valor_nombre(con_valor_nombre(s, k, v), b) == valor_nombre(s, b),
        forall|b: Seq<char>| #[trigger] tiene_nombre(con_valor_nombre(s, k, v), b) <==> (b == k@ || tiene_nombre(s, b)),
{
    let t = con_valor_nombre(s, k, v);
    if tiene_nombre(s, k@) {
        let p = indice_nombre(s, k@);
        assert(s[p].0@ == k@);
        assert(nombres_unicos(t));
        lema_indice_nombre(t, k@, p);
        assert forall|b: Seq<char>| b != k@ implies valor_nombre(t, b) == valor_nombre(s, b) by {
            if tiene_nombre(s, b) {
                let i = indice_nombre(s, b);
                assert(s[i].0@ == b);
                assert(t[i].0@ == b);
                lema_indice_nombre(t, b, i);
            } else {
                if tiene_nombre(t, b) {
                    let i = indice_nombre(t, b);
                    assert(s[i].0@ == b);
                }
            }
        }
        assert forall|b: Seq<char>| #[trigger] tiene_nombre(t, b) <==> (b == k@ || tiene_nombre(s, b)) by {
            if tiene_nombre(s, b) {
                let i = indice_nombre(s, b);
                assert(s[i].0@ == b);
                assert(t[i].0@ == b);
            }
            if tiene_nombre(t, b) && b != k@ {
                let i = indice_nombre(t, b);
                assert(s[i].0@ == b);
            }
        }
    } else {
        assert(nombres_unicos(t)) by {
            assert forall|i: int, j: int|
                0 <= i < t.len() && 0 <= j < t.len() && t[i].0@ == t[j].0@ implies i == j by {
                if i < s.len() && j == s.len() {
                    assert(s[i].0@ == k@);
                }
                if j < s.len() && i == s.len() {
                    assert(s[j].0@ == k@);
                }
            }
        }
        lema_indice_nombre(t, k@, s.len() as int);
        assert forall|b: Seq<char>| b != k@ implies valor_nombre(t, b) == valor_nombre(s, b) by {
            if tiene_nombre(s, b) {
                let i = indice_nombre(s, b);
                assert(s[i].0@ == b);
                assert(t[i].0@ == b);
                lema_indice_nombre(t, b, i);
            } else {
                if tiene_nombre(t, b) {
                    let i = indice_nombre(t, b);
                    assert(s[i].0@ == b);
                }
            }
        }
        assert forall|b: Seq<char>| #[trigger] tiene_nombre(t, b) <==> (b == k@ || tiene_nombre(s, b)) by {
            if tiene_nombre(s, b) {
                let i = indice_nombre(s, b);
                assert(s[i].0@ == b);
                assert(t[i].0@ == b);
            }
            if tiene_nombre(t, b) && b != k@ {
                let i = indice_nombre(t, b);
                assert(s[i].0@ == b);
            }
        }
    }
}

/// The position of `a` in `s`, or `None` when `a` is not a key.
pub fn buscar_nombre<V>(s: &Vec<(String, V)>, a: &String) -> (r: Option<usize>)
    requires
        nombres_unicos(s@),
    ensures
        match r {
            Some(i) => i < s@.len() && s@[i as int].0@ == a@ && tiene_nombre(s@, a@) && indice_nombre(
                s@,
                a@,
            ) == i as int && valor_nombre(s@, a@) == Some(s@[i as int].1),
            None => !tiene_nombre(s@, a@) && valor_nombre(s@, a@) == None::<V>,
        },
{
    let mut i: usize = 0;
    while i < s.len()
        invariant
            0 <= i <= s@.len(),
            nombres_unicos(s@),
            forall|j: int| 0 <= j < i ==> s@[j].0@ != a@,
        decreases s@.len() - i,
    {
        if s[i].0 == *a {
            proof {
                lema_indice_nombre(s@, a@, i as int);
            }
            return Some(i);
        }
        i = i + 1;
    }
    None
}

/// Binds `a` to `v` in `s`.
pub fn asignar_nombre<V>(s: &mut Vec<(String, V)>, a: String, v: V)
    requires
        nombres_unicos(old(s)@),
    ensures
        final(s)@ == con_valor_nombre(old(s)@, a, v),
{
    match buscar_nombre(s, &a) {
        Some(i) => {
            s.set(i, (a, v));
        },
        None => {
            s.push((a, v));
        },
    }
}

} // verus!
