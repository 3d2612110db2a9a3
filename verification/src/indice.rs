//! El índice de viviendas como secuencia sin identificadores repetidos, y
//! lo que le hace cada operación del registro.

use crate::entidad::VistaVivienda;
use vstd::prelude::*;

verus! {

/// No hay dos viviendas con el mismo identificador.
pub open spec fn sin_repetidos(vs: Seq<VistaVivienda>) -> bool {
    forall|i: int, j: int|
        0 <= i < j < vs.len() ==> (#[trigger] vs[i]).identificacion != (
        #[trigger] vs[j]).identificacion
}

/// El lugar de la primera vivienda con identificador `id`; si no hay
/// ninguna, la longitud de `vs`.
pub open spec fn posicion(vs: Seq<VistaVivienda>, id: Seq<char>) -> int
    decreases vs.len(),
{
    if vs.len() == 0 {
        0
    } else if vs[0].identificacion == id {
        0
    } else {
        1 + posicion(vs.skip(1), id)
    }
}

/// Hay una vivienda con identificador `id`.
pub open spec fn contiene(vs: Seq<VistaVivienda>, id: Seq<char>) -> bool {
    posicion(vs, id) < vs.len()
}

/// El índice tras pedir el alta de `v`: se añade al final si su
/// identificador es nuevo; si ya existe, nada cambia.
pub open spec fn agregado(vs: Seq<VistaVivienda>, v: VistaVivienda) -> Seq<VistaVivienda> {
    if contiene(vs, v.identificacion) {
        vs
    } else {
        vs.push(v)
    }
}

/// El índice tras pedir la modificación de `v`: ocupa el lugar de la
/// vivienda con su identificador; si no hay ninguna, nada cambia.
pub open spec fn actualizado(vs: Seq<VistaVivienda>, v: VistaVivienda) -> Seq<VistaVivienda> {
    if contiene(vs, v.identificacion) {
        vs.update(posicion(vs, v.identificacion), v)
    } else {
        vs
    }
}

/// El índice tras pedir la baja de `id`: desaparece la vivienda con ese
/// identificador; si no hay ninguna, nada cambia.
pub open spec fn quitado(vs: Seq<VistaVivienda>, id: Seq<char>) -> Seq<VistaVivienda> {
    if contiene(vs, id) {
        vs.remove(posicion(vs, id))
    } else {
        vs
    }
}

/// El índice tras leer `v` de un archivo: sustituye a la vivienda con su
/// identificador, o se añade al final si no la hay.
pub open spec fn puesto(vs: Seq<VistaVivienda>, v: VistaVivienda) -> Seq<VistaVivienda> {
    if contiene(vs, v.identificacion) {
        vs.update(posicion(vs, v.identificacion), v)
    } else {
        vs.push(v)
    }
}

/// El índice que resulta de leer las viviendas `rs` una tras otra: de las
/// que repiten identificador queda la última leída.
pub open spec fn cargados(rs: Seq<VistaVivienda>) -> Seq<VistaVivienda>
    decreases rs.len(),
{
    if rs.len() == 0 {
        Seq::empty()
    } else {
        puesto(cargados(rs.drop_last()), rs.last())
    }
}

/// El índice tras pedir, una tras otra, el alta de las viviendas `nuevas`.
pub open spec fn agregados(vs: Seq<VistaVivienda>, nuevas: Seq<VistaVivienda>) -> Seq<VistaVivienda>
    decreases nuevas.len(),
{
    if nuevas.len() == 0 {
        vs
    } else {
        agregado(agregados(vs, nuevas.drop_last()), nuevas.last())
    }
}

/// El índice como correspondencia de identificador a vivienda. Si un
/// identificador se repite, cuenta la última vivienda que lo lleva.
pub open spec fn mapa_de(vs: Seq<VistaVivienda>) -> Map<Seq<char>, VistaVivienda>
    decreases vs.len(),
{
    if vs.len() == 0 {
        Map::empty()
    } else {
        mapa_de(vs.drop_last()).insert(vs.last().identificacion, vs.last())
    }
}

/// `posicion` señala la primera vivienda con ese identificador.
pub proof fn lema_posicion(vs: Seq<VistaVivienda>, id: Seq<char>)
    ensures
        0 <= posicion(vs, id) <= vs.len(),
        contiene(vs, id) ==> vs[posicion(vs, id)].identificacion == id,
        forall|j: int| 0 <= j < posicion(vs, id) ==> (#[trigger] vs[j]).identificacion != id,
    decreases vs.len(),
{
    if vs.len() > 0 && vs[0].identificacion != id {
        let resto = vs.skip(1);
        lema_posicion(resto, id);
        assert forall|j: int| 0 <= j < posicion(vs, id) implies (#[trigger] vs[j]).identificacion
            != id by {
            if j > 0 {
                assert(vs[j] == resto[j - 1]);
            }
        }
    }
}

/// Si ninguna vivienda anterior a `i` lleva el identificador, y la del lugar
/// `i` sí, o `i` es el final, entonces `i` es la posición.
pub proof fn lema_posicion_es(vs: Seq<VistaVivienda>, id: Seq<char>, i: int)
    requires
        0 <= i <= vs.len(),
        forall|j: int| 0 <= j < i ==> (#[trigger] vs[j]).identificacion != id,
        i < vs.len() ==> vs[i].identificacion == id,
    ensures
        posicion(vs, id) == i,
{
    lema_posicion(vs, id);
}

/// Un identificador está en la correspondencia exactamente cuando alguna
/// vivienda lo lleva.
pub proof fn lema_mapa_contiene(vs: Seq<VistaVivienda>, id: Seq<char>)
    ensures
        mapa_de(vs).contains_key(id) <==> contiene(vs, id),
    decreases vs.len(),
{
    lema_posicion(vs, id);
    if vs.len() > 0 {
        let antes = vs.drop_last();
        lema_mapa_contiene(antes, id);
        lema_posicion(antes, id);
        if !contiene(antes, id) && vs.last().identificacion != id {
            assert forall|j: int| 0 <= j < vs.len() implies (#[trigger] vs[j]).identificacion
                != id by {
                if j < antes.len() {
                    assert(vs[j] == antes[j]);
                }
            }
        }
    }
}

/// Sin repetidos, la correspondencia da para cada identificador la única
/// vivienda que lo lleva.
pub proof fn lema_mapa_valor(vs: Seq<VistaVivienda>, i: int)
    requires
        sin_repetidos(vs),
        0 <= i < vs.len(),
    ensures
        mapa_de(vs).contains_key(vs[i].identificacion),
        mapa_de(vs)[vs[i].identificacion] == vs[i],
    decreases vs.len(),
{
    if i < vs.len() - 1 {
        lema_mapa_valor(vs.drop_last(), i);
    }
}

/// Sin repetidos, la correspondencia tiene por claves los identificadores
/// presentes, y da para cada uno la vivienda de su posición.
pub proof fn lema_mapa(vs: Seq<VistaVivienda>)
    requires
        sin_repetidos(vs),
    ensures
        forall|k: Seq<char>| #[trigger] mapa_de(vs).contains_key(k) <==> contiene(vs, k),
        forall|k: Seq<char>|
            contiene(vs, k) ==> #[trigger] mapa_de(vs)[k] == vs[posicion(vs, k)],
{
    assert forall|k: Seq<char>| #[trigger] mapa_de(vs).contains_key(k) <==> contiene(vs, k) by {
        lema_mapa_contiene(vs, k);
    }
    assert forall|k: Seq<char>| contiene(vs, k) implies #[trigger] mapa_de(vs)[k] == vs[posicion(
        vs,
        k,
    )] by {
        lema_posicion(vs, k);
        lema_mapa_valor(vs, posicion(vs, k));
    }
}

/// Dónde queda cada identificador al añadir una vivienda al final.
proof fn lema_posicion_al_final(vs: Seq<VistaVivienda>, v: VistaVivienda, k: Seq<char>)
    ensures
        posicion(vs.push(v), k) == if contiene(vs, k) {
            posicion(vs, k)
        } else if v.identificacion == k {
            vs.len() as int
        } else {
            vs.len() as int + 1
        },
{
    lema_posicion(vs, k);
    if contiene(vs, k) {
        lema_posicion_es(vs.push(v), k, posicion(vs, k));
    } else if v.identificacion == k {
        lema_posicion_es(vs.push(v), k, vs.len() as int);
    } else {
        lema_posicion_es(vs.push(v), k, vs.len() as int + 1);
    }
}

/// Sustituir una vivienda por otra con su mismo identificador no mueve
/// ningún identificador.
proof fn lema_posicion_al_sustituir(vs: Seq<VistaVivienda>, i: int, v: VistaVivienda, k: Seq<char>)
    requires
        0 <= i < vs.len(),
        vs[i].identificacion == v.identificacion,
    ensures
        posicion(vs.update(i, v), k) == posicion(vs, k),
{
    lema_posicion(vs, k);
    lema_posicion_es(vs.update(i, v), k, posicion(vs, k));
}

/// Sin repetidos, quitar la vivienda del lugar `i` deja sin sitio a su
/// identificador y adelanta un lugar a las que venían detrás.
proof fn lema_posicion_al_quitar(vs: Seq<VistaVivienda>, i: int, k: Seq<char>)
    requires
        sin_repetidos(vs),
        0 <= i < vs.len(),
    ensures
        posicion(vs.remove(i), k) == if posicion(vs, k) < i {
            posicion(vs, k)
        } else if posicion(vs, k) == i {
            vs.len() - 1
        } else {
            posicion(vs, k) - 1
        },
{
    lema_posicion(vs, k);
    let p = posicion(vs, k);
    if p < i {
        lema_posicion_es(vs.remove(i), k, p);
    } else if p == i {
        lema_posicion_es(vs.remove(i), k, vs.len() - 1);
    } else {
        lema_posicion_es(vs.remove(i), k, p - 1);
    }
}

/// Un alta no introduce identificadores repetidos.
pub proof fn lema_agregado_sin_repetidos(vs: Seq<VistaVivienda>, v: VistaVivienda)
    requires
        sin_repetidos(vs),
    ensures
        sin_repetidos(agregado(vs, v)),
{
    lema_posicion(vs, v.identificacion);
}

/// Una modificación no introduce identificadores repetidos.
pub proof fn lema_actualizado_sin_repetidos(vs: Seq<VistaVivienda>, v: VistaVivienda)
    requires
        sin_repetidos(vs),
    ensures
        sin_repetidos(actualizado(vs, v)),
{
    lema_posicion(vs, v.identificacion);
}

/// Una baja no introduce identificadores repetidos.
pub proof fn lema_quitado_sin_repetidos(vs: Seq<VistaVivienda>, id: Seq<char>)
    requires
        sin_repetidos(vs),
    ensures
        sin_repetidos(quitado(vs, id)),
{
    lema_posicion(vs, id);
}

/// Leer una vivienda más no introduce identificadores repetidos.
pub proof fn lema_puesto_sin_repetidos(vs: Seq<VistaVivienda>, v: VistaVivienda)
    requires
        sin_repetidos(vs),
    ensures
        sin_repetidos(puesto(vs, v)),
{
    if contiene(vs, v.identificacion) {
        lema_actualizado_sin_repetidos(vs, v);
    } else {
        lema_agregado_sin_repetidos(vs, v);
    }
}

/// El índice leído de un archivo nunca tiene identificadores repetidos.
pub proof fn lema_cargados_sin_repetidos(rs: Seq<VistaVivienda>)
    ensures
        sin_repetidos(cargados(rs)),
    decreases rs.len(),
{
    if rs.len() > 0 {
        lema_cargados_sin_repetidos(rs.drop_last());
        lema_puesto_sin_repetidos(cargados(rs.drop_last()), rs.last());
    }
}

/// En la correspondencia, un alta añade la vivienda si su identificador era
/// nuevo y no cambia nada si ya estaba.
pub proof fn lema_mapa_agregado(vs: Seq<VistaVivienda>, v: VistaVivienda)
    ensures
        mapa_de(agregado(vs, v)) == if mapa_de(vs).contains_key(v.identificacion) {
            mapa_de(vs)
        } else {
            mapa_de(vs).insert(v.identificacion, v)
        },
{
    lema_mapa_contiene(vs, v.identificacion);
    if !contiene(vs, v.identificacion) {
        assert(vs.push(v).drop_last() =~= vs);
    }
}

/// En la correspondencia, una modificación cambia la vivienda de ese
/// identificador si estaba y no cambia nada si no estaba.
pub proof fn lema_mapa_actualizado(vs: Seq<VistaVivienda>, v: VistaVivienda)
    requires
        sin_repetidos(vs),
    ensures
        mapa_de(actualizado(vs, v)) == if mapa_de(vs).contains_key(v.identificacion) {
            mapa_de(vs).insert(v.identificacion, v)
        } else {
            mapa_de(vs)
        },
{
    let id = v.identificacion;
    lema_mapa_contiene(vs, id);
    if contiene(vs, id) {
        let p = posicion(vs, id);
        let ws = actualizado(vs, v);
        lema_posicion(vs, id);
        lema_mapa(vs);
        lema_mapa(ws);
        let m = mapa_de(vs).insert(id, v);
        assert forall|k: Seq<char>| #[trigger] mapa_de(ws).contains_key(k) <==> m.contains_key(
            k,
        ) by {
            lema_posicion_al_sustituir(vs, p, v, k);
        }
        assert forall|k: Seq<char>| #[trigger] mapa_de(ws).contains_key(k) implies mapa_de(ws)[k]
            == m[k] by {
            lema_posicion_al_sustituir(vs, p, v, k);
            lema_posicion(vs, k);
        }
    }
}

/// En la correspondencia, una baja quita el identificador.
pub proof fn lema_mapa_quitado(vs: Seq<VistaVivienda>, id: Seq<char>)
    requires
        sin_repetidos(vs),
    ensures
        mapa_de(quitado(vs, id)) == mapa_de(vs).remove(id),
{
    lema_mapa_contiene(vs, id);
    lema_posicion(vs, id);
    if contiene(vs, id) {
        let p = posicion(vs, id);
        let ws = quitado(vs, id);
        lema_mapa(vs);
        lema_mapa(ws);
        let m = mapa_de(vs).remove(id);
        assert forall|k: Seq<char>| #[trigger] mapa_de(ws).contains_key(k) <==> m.contains_key(
            k,
        ) by {
            lema_posicion_al_quitar(vs, p, k);
            lema_posicion(vs, k);
        }
        assert forall|k: Seq<char>| #[trigger] mapa_de(ws).contains_key(k) implies mapa_de(ws)[k]
            == m[k] by {
            lema_posicion_al_quitar(vs, p, k);
            lema_posicion(vs, k);
        }
    }
}

/// En la correspondencia, leer una vivienda más la pone bajo su
/// identificador, estuviera o no.
pub proof fn lema_mapa_puesto(vs: Seq<VistaVivienda>, v: VistaVivienda)
    requires
        sin_repetidos(vs),
    ensures
        mapa_de(puesto(vs, v)) == mapa_de(vs).insert(v.identificacion, v),
{
    lema_mapa_contiene(vs, v.identificacion);
    if contiene(vs, v.identificacion) {
        lema_mapa_actualizado(vs, v);
    } else {
        lema_mapa_agregado(vs, v);
    }
}

/// La correspondencia del índice leído es la de las viviendas leídas: de
/// las que repiten identificador cuenta la última.
pub proof fn lema_mapa_cargados(rs: Seq<VistaVivienda>)
    ensures
        mapa_de(cargados(rs)) == mapa_de(rs),
    decreases rs.len(),
{
    if rs.len() > 0 {
        lema_mapa_cargados(rs.drop_last());
        lema_cargados_sin_repetidos(rs.drop_last());
        lema_mapa_puesto(cargados(rs.drop_last()), rs.last());
    }
}

/// Unas viviendas sin identificadores repetidos se leen tal cual, en su
/// mismo orden.
pub proof fn lema_cargados_sin_cambio(rs: Seq<VistaVivienda>)
    requires
        sin_repetidos(rs),
    ensures
        cargados(rs) == rs,
    decreases rs.len(),
{
    if rs.len() > 0 {
        let antes = rs.drop_last();
        lema_cargados_sin_cambio(antes);
        lema_posicion_es(antes, rs.last().identificacion, antes.len() as int);
    }
}

/// Por muchas altas que se pidan, una tras otra, el índice nunca llega a
/// tener dos viviendas con el mismo identificador.
pub proof fn lema_altas_sin_repetidos(vs: Seq<VistaVivienda>, nuevas: Seq<VistaVivienda>)
    requires
        sin_repetidos(vs),
    ensures
        sin_repetidos(agregados(vs, nuevas)),
    decreases nuevas.len(),
{
    if nuevas.len() > 0 {
        lema_altas_sin_repetidos(vs, nuevas.drop_last());
        lema_agregado_sin_repetidos(agregados(vs, nuevas.drop_last()), nuevas.last());
    }
}

/// Tras el alta de `r`, pedir el alta de otra vivienda con su mismo
/// identificador no cambia nada: queda la que ya estaba.
pub proof fn lema_alta_repetida(vs: Seq<VistaVivienda>, r: VistaVivienda, r2: VistaVivienda)
    requires
        r2.identificacion == r.identificacion,
    ensures
        agregado(agregado(vs, r), r2) == agregado(vs, r),
        contiene(agregado(vs, r), r.identificacion),
        !contiene(vs, r.identificacion) ==> agregado(vs, r)[posicion(
            agregado(vs, r),
            r.identificacion,
        )] == r,
{
    lema_posicion_al_final(vs, r, r.identificacion);
}

/// Modificar una vivienda que no está no cambia nada.
pub proof fn lema_modificacion_ausente(vs: Seq<VistaVivienda>, v: VistaVivienda)
    requires
        !contiene(vs, v.identificacion),
    ensures
        actualizado(vs, v) == vs,
{
}

/// Modificar una vivienda que está la sustituye entera, en su mismo lugar,
/// y deja las demás como estaban.
pub proof fn lema_modificacion_presente(vs: Seq<VistaVivienda>, v: VistaVivienda)
    requires
        contiene(vs, v.identificacion),
    ensures
        actualizado(vs, v).len() == vs.len(),
        posicion(actualizado(vs, v), v.identificacion) == posicion(vs, v.identificacion),
        actualizado(vs, v)[posicion(vs, v.identificacion)] == v,
        forall|j: int|
            0 <= j < vs.len() && j != posicion(vs, v.identificacion) ==> actualizado(vs, v)[j]
                == vs[j],
{
    lema_posicion(vs, v.identificacion);
    lema_posicion_al_sustituir(vs, posicion(vs, v.identificacion), v, v.identificacion);
}

/// Dar de baja un identificador que no está no cambia nada.
pub proof fn lema_baja_ausente(vs: Seq<VistaVivienda>, id: Seq<char>)
    requires
        !contiene(vs, id),
    ensures
        quitado(vs, id) == vs,
{
}

/// Dar de baja dos veces seguidas el mismo identificador es lo mismo que
/// darlo de baja una vez.
pub proof fn lema_baja_repetida(vs: Seq<VistaVivienda>, id: Seq<char>)
    requires
        sin_repetidos(vs),
    ensures
        !contiene(quitado(vs, id), id),
        quitado(quitado(vs, id), id) == quitado(vs, id),
{
    lema_posicion(vs, id);
    if contiene(vs, id) {
        lema_posicion_al_quitar(vs, posicion(vs, id), id);
    }
}

} // verus!
