//! Texto decimal de los enteros: cómo se escriben y cómo se leen.

use vstd::prelude::*;
use vstd::std_specs::iter::IteratorSpec;

verus! {

/// `c` es una de las cifras `'0'..='9'`.
pub open spec fn es_cifra(c: char) -> bool {
    '0' <= c && c <= '9'
}

/// El valor de la cifra `c`.
pub open spec fn valor_cifra(c: char) -> int {
    c as int - '0' as int
}

/// La cifra que escribe `d`, con `0 <= d < 10`.
pub open spec fn cifra_de(d: int) -> char {
    if d == 0 {
        '0'
    } else if d == 1 {
        '1'
    } else if d == 2 {
        '2'
    } else if d == 3 {
        '3'
    } else if d == 4 {
        '4'
    } else if d == 5 {
        '5'
    } else if d == 6 {
        '6'
    } else if d == 7 {
        '7'
    } else if d == 8 {
        '8'
    } else {
        '9'
    }
}

/// Todas las posiciones de `s` son cifras.
pub open spec fn solo_cifras(s: Seq<char>) -> bool {
    forall|i: int| 0 <= i < s.len() ==> es_cifra(#[trigger] s[i])
}

/// El número natural que escriben las cifras de `s`, leídas en base diez.
pub open spec fn valor_natural(s: Seq<char>) -> nat
    decreases s.len(),
{
    if s.len() == 0 {
        0
    } else {
        (valor_natural(s.drop_last()) * 10 + valor_cifra(s.last())) as nat
    }
}

/// Las cifras de `n` en base diez, sin ceros a la izquierda.
pub open spec fn cifras_de(n: nat) -> Seq<char>
    decreases n,
{
    if n < 10 {
        seq![cifra_de(n as int)]
    } else {
        cifras_de(n / 10).push(cifra_de((n % 10) as int))
    }
}

/// La magnitud que escribe `s`: hace falta al menos una cifra, y nada más
/// que cifras.
pub open spec fn magnitud(s: Seq<char>) -> Option<int> {
    if s.len() > 0 && solo_cifras(s) {
        Some(valor_natural(s) as int)
    } else {
        None
    }
}

/// El entero que escribe `s`: un signo `+` o `-` opcional y después las
/// cifras. Cualquier otro carácter, también un espacio, lo invalida.
pub open spec fn entero_de_texto(s: Seq<char>) -> Option<int> {
    if s.len() > 0 && s[0] == '-' {
        match magnitud(s.skip(1)) {
            Some(m) => Some(-m),
            None => None,
        }
    } else if s.len() > 0 && s[0] == '+' {
        magnitud(s.skip(1))
    } else {
        magnitud(s)
    }
}

/// Lo mismo que [`entero_de_texto`], pero solo si el valor cabe en un `i32`.
pub open spec fn i32_de_texto(s: Seq<char>) -> Option<i32> {
    match entero_de_texto(s) {
        Some(v) => if i32::MIN <= v <= i32::MAX {
            Some(v as i32)
        } else {
            None
        },
        None => None,
    }
}

/// El texto decimal de `v`: las cifras sin ceros a la izquierda, con `-`
/// delante si es negativo.
pub open spec fn texto_de_entero(v: int) -> Seq<char> {
    if v < 0 {
        seq!['-'] + cifras_de((-v) as nat)
    } else {
        cifras_de(v as nat)
    }
}

/// Dónde empiezan las cifras de `s`: tras el signo, si lo lleva.
spec fn lugar_de_las_cifras(s: Seq<char>) -> int {
    if s.len() > 0 && (s[0] == '-' || s[0] == '+') {
        1
    } else {
        0
    }
}

/// Las cifras de `n` son cifras, hay al menos una, y valen `n`.
proof fn lema_cifras_de(n: nat)
    ensures
        cifras_de(n).len() > 0,
        solo_cifras(cifras_de(n)),
        valor_natural(cifras_de(n)) == n,
        cifras_de(n)[0] != '-',
        cifras_de(n)[0] != '+',
    decreases n,
{
    if n < 10 {
        assert(valor_natural(cifras_de(n).drop_last()) == 0);
    } else {
        lema_cifras_de(n / 10);
        assert(cifras_de(n).drop_last() =~= cifras_de(n / 10));
    }
}

/// Un prefijo de cifras no vale más que el texto entero.
proof fn lema_prefijo(s: Seq<char>, k: int)
    requires
        solo_cifras(s),
        0 <= k <= s.len(),
    ensures
        valor_natural(s.take(k)) <= valor_natural(s),
    decreases s.len(),
{
    if k == s.len() {
        assert(s.take(k) =~= s);
    } else {
        lema_prefijo(s.drop_last(), k);
        assert(s.drop_last().take(k) =~= s.take(k));
    }
}

/// Leer lo que se escribió devuelve el mismo entero.
pub proof fn lema_escribir_y_leer(v: int)
    ensures
        entero_de_texto(texto_de_entero(v)) == Some(v),
{
    if v < 0 {
        lema_cifras_de((-v) as nat);
        assert(texto_de_entero(v).skip(1) =~= cifras_de((-v) as nat));
    } else {
        lema_cifras_de(v as nat);
    }
}

/// Lo mismo para los `i32`: el texto de `n` se lee como `n`.
pub proof fn lema_escribir_y_leer_i32(n: i32)
    ensures
        i32_de_texto(texto_de_entero(n as int)) == Some(n),
{
    lema_escribir_y_leer(n as int);
}

/// Lee un `i32` de su texto decimal.
pub fn parse_i32(s: &str) -> (r: Option<i32>)
    ensures
        r == i32_de_texto(s@),
{
    broadcast use vstd::string::group_string_axioms;

    let mut resto = s.chars();
    let mut negativo = false;
    let mut hay_cifras = false;
    let mut acc: i64 = 0;
    match resto.next() {
        None => {
            return None;
        },
        Some(c) => {
            if c == '-' {
                negativo = true;
            } else if '0' <= c && c <= '9' {
                acc = (c as u32 - '0' as u32) as i64;
                hay_cifras = true;
            } else if c != '+' {
                return None;
            }
        },
    }
    let ghost cuerpo = s@.skip(lugar_de_las_cifras(s@));
    let ghost mut k: int = 1 - lugar_de_las_cifras(s@);
    proof {
        if lugar_de_las_cifras(s@) == 0 {
            assert(valor_natural(cuerpo.take(1).drop_last()) == 0);
        }
        assert(s@.skip(1) =~= cuerpo.skip(k));
    }
    loop
        invariant
            0 <= k <= cuerpo.len(),
            cuerpo == s@.skip(lugar_de_las_cifras(s@)),
            lugar_de_las_cifras(s@) == 0 ==> cuerpo == s@,
            resto.remaining() == cuerpo.skip(k),
            negativo == (s@.len() > 0 && s@[0] == '-'),
            hay_cifras == (k > 0),
            solo_cifras(cuerpo.take(k)),
            acc == valor_natural(cuerpo.take(k)),
            0 <= acc <= 2147483648,
        ensures
            k == cuerpo.len(),
        decreases cuerpo.len() - k,
    {
        match resto.next() {
            None => {
                break;
            },
            Some(c) => {
                assert(cuerpo.take(k + 1).drop_last() =~= cuerpo.take(k));
                if !('0' <= c && c <= '9') {
                    return None;
                }
                acc = acc * 10 + (c as u32 - '0' as u32) as i64;
                hay_cifras = true;
                proof {
                    k = k + 1;
                }
                if acc > 2147483648 {
                    proof {
                        if solo_cifras(cuerpo) {
                            lema_prefijo(cuerpo, k);
                        }
                    }
                    return None;
                }
            },
        }
    }
    if !hay_cifras {
        None
    } else if negativo {
        Some((-acc) as i32)
    } else if acc > 2147483647 {
        None
    } else {
        Some(acc as i32)
    }
}

/// El texto de una sola cifra.
fn texto_cifra(d: u64) -> (r: &'static str)
    requires
        d < 10,
    ensures
        r@ == seq![cifra_de(d as int)],
{
    proof {
        reveal_strlit("0");
        reveal_strlit("1");
        reveal_strlit("2");
        reveal_strlit("3");
        reveal_strlit("4");
        reveal_strlit("5");
        reveal_strlit("6");
        reveal_strlit("7");
        reveal_strlit("8");
        reveal_strlit("9");
    }
    if d == 0 {
        "0"
    } else if d == 1 {
        "1"
    } else if d == 2 {
        "2"
    } else if d == 3 {
        "3"
    } else if d == 4 {
        "4"
    } else if d == 5 {
        "5"
    } else if d == 6 {
        "6"
    } else if d == 7 {
        "7"
    } else if d == 8 {
        "8"
    } else {
        "9"
    }
}

/// Añade a `s` las cifras de `n`.
fn escribir_natural(n: u64, s: &mut String)
    ensures
        final(s)@ == old(s)@ + cifras_de(n as nat),
    decreases n,
{
    if n >= 10 {
        escribir_natural(n / 10, s);
    }
    s.append(texto_cifra(n % 10));
}

/// Escribe `n` en decimal.
pub fn texto_i32(n: i32) -> (s: String)
    ensures
        s@ == texto_de_entero(n as int),
{
    let mut s = String::new();
    if n < 0 {
        proof {
            reveal_strlit("-");
        }
        s.append("-");
        let m: u64 = (-(n as i64)) as u64;
        escribir_natural(m, &mut s);
    } else {
        escribir_natural(n as u64, &mut s);
    }
    s
}

} // verus!
