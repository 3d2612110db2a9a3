//! La lista de trabajo de un formulario de edición: qué líneas muestra y a
//! qué vivienda corresponde la línea elegida.

use crate::entidad::{linea_de_vivienda, ScreenOutput, TipoVivienda, VistaVivienda};
use vstd::prelude::*;
use vstd::std_specs::iter::IteratorSpec;

verus! {

/// `c` en minúscula si es una de las letras `'A'..='Z'`; si no, `c`.
pub open spec fn minuscula_ascii(c: char) -> char {
    if 'A' <= c && c <= 'Z' {
        ((c as u8 + 32) as u8) as char
    } else {
        c
    }
}

/// El texto `s` con sus letras ASCII en minúscula.
pub open spec fn sin_caja(s: Seq<char>) -> Seq<char> {
    Seq::new(s.len(), |i: int| minuscula_ascii(s[i]))
}

/// `c` es un espacio en blanco: uno de los caracteres con la propiedad
/// `White_Space` de Unicode.
pub open spec fn es_blanco(c: char) -> bool {
    ('\u{9}' <= c && c <= '\u{d}') || c == ' ' || c == '\u{85}' || c == '\u{a0}' || c == '\u{1680}'
        || ('\u{2000}' <= c && c <= '\u{200a}') || c == '\u{2028}' || c == '\u{2029}' || c
        == '\u{202f}' || c == '\u{205f}' || c == '\u{3000}'
}

/// En `s` no hay más que espacios en blanco.
pub open spec fn solo_blancos(s: Seq<char>) -> bool {
    forall|i: int| 0 <= i < s.len() ==> es_blanco(#[trigger] s[i])
}

/// Pone en minúscula una letra ASCII.
fn en_minuscula_ascii(c: char) -> (r: char)
    ensures
        r == minuscula_ascii(c),
{
    if 'A' <= c && c <= 'Z' {
        ((c as u8) + 32) as char
    } else {
        c
    }
}

/// Dice si dos textos son iguales cuando no se distingue entre mayúsculas
/// y minúsculas ASCII.
pub fn iguales_sin_caja(a: &str, b: &str) -> (r: bool)
    ensures
        r == (sin_caja(a@) == sin_caja(b@)),
{
    broadcast use vstd::string::group_string_axioms;

    let mut otros = b.chars();
    for c in it: a.chars()
        invariant
            it.seq() == a@,
            it.index() <= b@.len(),
            otros.remaining() == b@.skip(it.index() as int),
            forall|j: int| 0 <= j < it.index() ==> minuscula_ascii(a@[j]) == minuscula_ascii(b@[j]),
    {
        match otros.next() {
            None => {
                assert(sin_caja(a@).len() != sin_caja(b@).len());
                return false;
            },
            Some(d) => {
                if en_minuscula_ascii(c) != en_minuscula_ascii(d) {
                    assert(sin_caja(a@)[it.index() as int] != sin_caja(b@)[it.index() as int]);
                    return false;
                }
            },
        }
    }
    match otros.next() {
        None => {
            assert(sin_caja(a@) =~= sin_caja(b@));
            true
        },
        Some(_) => false,
    }
}

/// Dice si en un texto no hay más que espacios en blanco.
pub fn es_solo_blancos(s: &str) -> (r: bool)
    ensures
        r == solo_blancos(s@),
{
    for c in it: s.chars()
        invariant
            it.seq() == s@,
            forall|j: int| 0 <= j < it.index() ==> es_blanco(#[trigger] s@[j]),
    {
        let blanco = ('\u{9}' <= c && c <= '\u{d}') || c == ' ' || c == '\u{85}' || c == '\u{a0}'
            || c == '\u{1680}' || ('\u{2000}' <= c && c <= '\u{200a}') || c == '\u{2028}' || c
            == '\u{2029}' || c == '\u{202f}' || c == '\u{205f}' || c == '\u{3000}';
        if !blanco {
            return false;
        }
    }
    true
}

/// La línea `linea` es la de la vivienda `v`, sin distinguir mayúsculas de
/// minúsculas ASCII.
pub open spec fn es_la_linea_de(v: VistaVivienda, linea: Seq<char>) -> bool {
    sin_caja(linea_de_vivienda(v)) == sin_caja(linea)
}

/// El lugar de la primera vivienda de `vs` cuya línea es `linea`; si no
/// hay ninguna, la longitud de `vs`.
pub open spec fn lugar_de_linea(vs: Seq<VistaVivienda>, linea: Seq<char>) -> int
    decreases vs.len(),
{
    if vs.len() == 0 {
        0
    } else if es_la_linea_de(vs[0], linea) {
        0
    } else {
        1 + lugar_de_linea(vs.skip(1), linea)
    }
}

/// `lugar_de_linea` señala la primera vivienda con esa línea.
pub proof fn lema_lugar_de_linea(vs: Seq<VistaVivienda>, linea: Seq<char>)
    ensures
        0 <= lugar_de_linea(vs, linea) <= vs.len(),
        lugar_de_linea(vs, linea) < vs.len() ==> es_la_linea_de(
            vs[lugar_de_linea(vs, linea)],
            linea,
        ),
        forall|j: int| 0 <= j < lugar_de_linea(vs, linea) ==> !es_la_linea_de(#[trigger] vs[j], linea),
    decreases vs.len(),
{
    if vs.len() > 0 && !es_la_linea_de(vs[0], linea) {
        let resto = vs.skip(1);
        lema_lugar_de_linea(resto, linea);
        assert forall|j: int| 0 <= j < lugar_de_linea(vs, linea) implies !es_la_linea_de(
            #[trigger] vs[j],
            linea,
        ) by {
            if j > 0 {
                assert(vs[j] == resto[j - 1]);
            }
        }
    }
}

/// Si ninguna vivienda anterior a `i` tiene esa línea, y la del lugar `i`
/// sí, o `i` es el final, entonces `i` es el lugar de la línea.
proof fn lema_lugar_es(vs: Seq<VistaVivienda>, linea: Seq<char>, i: int)
    requires
        0 <= i <= vs.len(),
        forall|j: int| 0 <= j < i ==> !es_la_linea_de(#[trigger] vs[j], linea),
        i < vs.len() ==> es_la_linea_de(vs[i], linea),
    ensures
        lugar_de_linea(vs, linea) == i,
{
    lema_lugar_de_linea(vs, linea);
}

/// Busca la primera vivienda de la lista cuya línea de pantalla es `linea`,
/// sin distinguir mayúsculas de minúsculas ASCII.
pub fn buscar_linea(modelo: &Vec<TipoVivienda>, linea: &str) -> (r: Option<usize>)
    ensures
        match r {
            Some(i) => i < modelo.len() && i == lugar_de_linea(modelo.deep_view(), linea@),
            None => lugar_de_linea(modelo.deep_view(), linea@) == modelo.len(),
        },
{
    let mut i: usize = 0;
    while i < modelo.len()
        invariant
            0 <= i <= modelo.len(),
            forall|j: int| 0 <= j < i ==> !es_la_linea_de(#[trigger] modelo.deep_view()[j], linea@),
        decreases modelo.len() - i,
    {
        let texto = modelo[i].toScreen();
        if iguales_sin_caja(texto.as_str(), linea) {
            proof {
                lema_lugar_es(modelo.deep_view(), linea@, i as int);
            }
            return Some(i);
        }
        i += 1;
    }
    proof {
        lema_lugar_es(modelo.deep_view(), linea@, i as int);
    }
    None
}

/// La vivienda `v` pasa el filtro `prefijo`: o el filtro está en blanco, o
/// es su identificador, sin distinguir mayúsculas de minúsculas ASCII.
pub open spec fn pasa_el_filtro(v: VistaVivienda, prefijo: Seq<char>) -> bool {
    solo_blancos(prefijo) || sin_caja(v.identificacion) == sin_caja(prefijo)
}

/// Las líneas de las viviendas de `vs` que pasan el filtro, en su orden.
pub open spec fn lineas_con(vs: Seq<VistaVivienda>, prefijo: Seq<char>) -> Seq<Seq<char>>
    decreases vs.len(),
{
    if vs.len() == 0 {
        Seq::empty()
    } else if pasa_el_filtro(vs.last(), prefijo) {
        lineas_con(vs.drop_last(), prefijo).push(linea_de_vivienda(vs.last()))
    } else {
        lineas_con(vs.drop_last(), prefijo)
    }
}

/// Compone las líneas de las viviendas de la lista que pasan el filtro.
pub fn lineas_con_prefijo(modelo: &Vec<TipoVivienda>, prefijo: &str) -> (lineas: Vec<String>)
    ensures
        lineas.deep_view() == lineas_con(modelo.deep_view(), prefijo@),
{
    let todas = es_solo_blancos(prefijo);
    let mut lineas: Vec<String> = Vec::new();
    let mut i: usize = 0;
    while i < modelo.len()
        invariant
            0 <= i <= modelo.len(),
            todas == solo_blancos(prefijo@),
            lineas.deep_view() == lineas_con(modelo.deep_view().take(i as int), prefijo@),
        decreases modelo.len() - i,
    {
        assert(modelo.deep_view().take(i as int + 1).drop_last() =~= modelo.deep_view().take(
            i as int,
        ));
        if todas || iguales_sin_caja(modelo[i].identificacion.as_str(), prefijo) {
            lineas.push(modelo[i].toScreen());
        }
        i += 1;
    }
    assert(modelo.deep_view().take(modelo.len() as int) =~= modelo.deep_view());
    lineas
}

/// El texto `s` pasado a minúsculas según Unicode.
pub uninterp spec fn texto_en_minusculas(s: Seq<char>) -> Seq<char>;

/// Llama a `str::to_lowercase` de la biblioteca estándar. El contrato solo
/// le da nombre al resultado, que depende nada más que del texto recibido.
#[verifier::external_body]
fn en_minusculas(s: &str) -> (r: String)
    ensures
        r@ == texto_en_minusculas(s@),
{
    s.to_lowercase()
}

/// Compone las líneas que se muestran cuando en la casilla del filtro se ha
/// escrito `filtro`: el filtro se pasa a minúsculas y se aplica como
/// prefijo.
pub fn lineas_filtradas(modelo: &Vec<TipoVivienda>, filtro: &str) -> (lineas: Vec<String>)
    ensures
        lineas.deep_view() == lineas_con(modelo.deep_view(), texto_en_minusculas(filtro@)),
{
    let prefijo = en_minusculas(filtro);
    lineas_con_prefijo(modelo, prefijo.as_str())
}

} // verus!
