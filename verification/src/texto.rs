//! Trimming of text fields.

use vstd::prelude::*;

verus! {

/// Whether `c` is white space, as `char::is_whitespace` of the standard
/// library decides it (the Unicode property `White_Space`).
pub uninterp spec fn espaco(c: char) -> bool;

/// Calls `char::is_whitespace`. Nothing is claimed of the answer but that it
/// is the one the standard library gives for this character.
#[verifier::external_body]
pub(crate) fn e_espaco(c: char) -> (b: bool)
    ensures
        b == espaco(c),
{
    c.is_whitespace()
}

/// `s` without the white space it starts with.
pub open spec fn sem_espaco_inicial(s: Seq<char>) -> Seq<char>
    decreases s.len(),
{
    if s.len() > 0 && espaco(s.first()) {
        sem_espaco_inicial(s.drop_first())
    } else {
        s
    }
}

/// `s` without the white space it ends with.
pub open spec fn sem_espaco_final(s: Seq<char>) -> Seq<char>
    decreases s.len(),
{
    if s.len() > 0 && espaco(s.last()) {
        sem_espaco_final(s.drop_last())
    } else {
        s
    }
}

/// `s` without the white space at either end.
pub open spec fn aparado(s: Seq<char>) -> Seq<char> {
    sem_espaco_final(sem_espaco_inicial(s))
}

/// Whether `s` has no white space at either end.
pub open spec fn esta_aparado(s: Seq<char>) -> bool {
    s.len() == 0 || (!espaco(s.first()) && !espaco(s.last()))
}

/// What is left of `s` does not start with white space.
proof fn lema_inicial_sem_espaco(s: Seq<char>)
    ensures
        sem_espaco_inicial(s).len() <= s.len(),
        sem_espaco_inicial(s).len() == 0 || !espaco(sem_espaco_inicial(s).first()),
    decreases s.len(),
{
    if s.len() > 0 && espaco(s.first()) {
        lema_inicial_sem_espaco(s.drop_first());
    }
}

/// What is left of `s` is a prefix of `s` that does not end with white space.
proof fn lema_final_sem_espaco(s: Seq<char>)
    ensures
        sem_espaco_final(s).len() <= s.len(),
        sem_espaco_final(s) == s.subrange(0, sem_espaco_final(s).len() as int),
        sem_espaco_final(s).len() == 0 || !espaco(sem_espaco_final(s).last()),
    decreases s.len(),
{
    if s.len() > 0 && espaco(s.last()) {
        let t = s.drop_last();
        lema_final_sem_espaco(t);
        let n = sem_espaco_final(t).len() as int;
        assert(t.subrange(0, n) =~= s.subrange(0, n));
    } else {
        assert(s.subrange(0, s.len() as int) =~= s);
    }
}

/// Trimming leaves a text that is no longer than the input, has no white
/// space at either end, and that trimming does not change again.
pub proof fn lema_aparado(s: Seq<char>)
    ensures
        aparado(s).len() <= s.len(),
        esta_aparado(aparado(s)),
        aparado(aparado(s)) == aparado(s),
{
    let t = sem_espaco_inicial(s);
    lema_inicial_sem_espaco(s);
    lema_final_sem_espaco(t);
    let r = sem_espaco_final(t);
    if r.len() > 0 {
        assert(r.first() == t.first());
    }
}

/// A text is left as it is by trimming exactly when it has no white space
/// at either end.
pub proof fn lema_esta_aparado(s: Seq<char>)
    ensures
        esta_aparado(s) <==> aparado(s) == s,
{
    lema_aparado(s);
}

/// What `sem_espaco_inicial` leaves, given where the white space at the start ends.
proof fn lema_inicial(s: Seq<char>, a: int)
    requires
        0 <= a <= s.len(),
        forall|j: int| 0 <= j < a ==> espaco(#[trigger] s[j]),
        a == s.len() || !espaco(s[a]),
    ensures
        sem_espaco_inicial(s) == s.subrange(a, s.len() as int),
    decreases a,
{
    if a == 0 {
        assert(s.subrange(0, s.len() as int) =~= s);
    } else {
        let t = s.drop_first();
        assert(espaco(s[0]));
        assert forall|j: int| 0 <= j < a - 1 implies espaco(#[trigger] t[j]) by {
            assert(t[j] == s[j + 1]);
        }
        lema_inicial(t, a - 1);
        assert(t.subrange(a - 1, t.len() as int) =~= s.subrange(a, s.len() as int));
    }
}

/// What `sem_espaco_final` leaves, given where the white space at the end starts.
proof fn lema_final(s: Seq<char>, b: int)
    requires
        0 <= b <= s.len(),
        forall|j: int| b <= j < s.len() ==> espaco(#[trigger] s[j]),
        b == 0 || !espaco(s[b - 1]),
    ensures
        sem_espaco_final(s) == s.subrange(0, b),
    decreases s.len() - b,
{
    if b == s.len() {
        assert(s.subrange(0, b) =~= s);
    } else {
        let t = s.drop_last();
        assert(espaco(s[s.len() - 1]));
        assert forall|j: int| b <= j < t.len() implies espaco(#[trigger] t[j]) by {
            assert(t[j] == s[j]);
        }
        lema_final(t, b);
        assert(t.subrange(0, b) =~= s.subrange(0, b));
    }
}

/// Trims `s` at both ends: the result starts at the first character of `s`
/// that is no white space and ends with the last one.
pub fn aparar(s: &str) -> (r: &str)
    ensures
        r@ == aparado(s@),
{
    let n: usize = s.unicode_len();
    let mut i: usize = 0;
    let mut inicio: usize = 0;
    let mut fim: usize = 0;
    for c in it: s.chars()
        invariant
            i == it.index(),
            it.seq() == s@,
            n == s@.len(),
            inicio <= fim <= i,
            forall|j: int| 0 <= j < inicio ==> espaco(#[trigger] s@[j]),
            forall|j: int| fim <= j < i ==> espaco(#[trigger] s@[j]),
            inicio == fim ==> inicio == i,
            inicio < fim ==> !espaco(s@[inicio as int]) && !espaco(s@[fim - 1]),
    {
        if !e_espaco(c) {
            if inicio == fim {
                inicio = i;
            }
            fim = i + 1;
        } else if inicio == fim {
            inicio = i + 1;
            fim = i + 1;
        }
        i = i + 1;
    }
    proof {
        lema_inicial(s@, inicio as int);
        let t = s@.subrange(inicio as int, n as int);
        assert forall|j: int| fim - inicio <= j < t.len() implies espaco(#[trigger] t[j]) by {
            assert(t[j] == s@[j + inicio]);
        }
        lema_final(t, fim - inicio);
        assert(t.subrange(0, fim - inicio) =~= s@.subrange(inicio as int, fim as int));
    }
    s.substring_char(inicio, fim)
}

/// Whether `s` has no white space at either end, which is to say whether
/// trimming would leave it as it is.
pub fn sem_espaco_nas_pontas(s: &str) -> (b: bool)
    ensures
        b == esta_aparado(s@),
        b == (aparado(s@) == s@),
{
    proof {
        lema_esta_aparado(s@);
    }
    let n: usize = s.unicode_len();
    if n == 0 {
        true
    } else {
        !e_espaco(s.get_char(0)) && !e_espaco(s.get_char(n - 1))
    }
}

} // verus!
