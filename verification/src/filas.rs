//! Las viviendas como filas de una tabla de textos: una fila de cabecera con
//! los nombres de los campos y una fila por vivienda.

use crate::decimal::{i32_de_texto, lema_escribir_y_leer_i32, parse_i32, texto_de_entero, texto_i32};
use crate::entidad::{TipoVivienda, VistaVivienda};
use crate::tipo::{lema_etiqueta_ida_y_vuelta, Tipo};
use vstd::prelude::*;

verus! {

/// El número de columnas de la tabla.
pub const COLUMNAS: usize = 9;

/// Por qué una tabla no describe un conjunto de viviendas. Las filas se
/// cuentan desde cero, y la cabecera es la fila cero.
#[derive(Debug, Clone, Copy, PartialEq, Eq, Structural)]
pub enum ErrorCarga {
    /// El texto no es una tabla CSV bien formada.
    Csv,
    /// La primera fila no es la cabecera esperada.
    Cabecera,
    /// La fila indicada no tiene nueve columnas.
    Columnas(usize),
    /// La fila indicada tiene, donde va un número, algo que no lo es.
    Numero(usize),
    /// La fila indicada nombra una clase de vivienda que no existe.
    Tipo(usize),
}

/// La fila de cabecera: los nombres de los campos, en su orden.
pub open spec fn cabecera() -> Seq<Seq<char>> {
    seq![
        "identificacion"@,
        "calle"@,
        "numero"@,
        "piso"@,
        "codigo_postal"@,
        "metros_cuadrados"@,
        "numero_aseos"@,
        "numero_habitaciones"@,
        "tipo"@,
    ]
}

/// La fila que describe una vivienda.
pub open spec fn fila_de(v: VistaVivienda) -> Seq<Seq<char>> {
    seq![
        v.identificacion,
        v.calle,
        texto_de_entero(v.numero as int),
        v.piso,
        v.codigo_postal,
        texto_de_entero(v.metros_cuadrados as int),
        texto_de_entero(v.numero_aseos as int),
        texto_de_entero(v.numero_habitaciones as int),
        v.tipo.etiqueta(),
    ]
}

/// La vivienda que describe la fila `f`, que en la tabla ocupa el lugar `n`.
/// Se comprueba primero el número de columnas, después los cuatro números
/// y por último la clase.
pub open spec fn vivienda_de_fila(f: Seq<Seq<char>>, n: usize) -> Result<VistaVivienda, ErrorCarga> {
    if f.len() != COLUMNAS {
        Err(ErrorCarga::Columnas(n))
    } else if i32_de_texto(f[2]) is None || i32_de_texto(f[5]) is None || i32_de_texto(f[6]) is None
        || i32_de_texto(f[7]) is None {
        Err(ErrorCarga::Numero(n))
    } else if Tipo::de_etiqueta(f[8]) is Err {
        Err(ErrorCarga::Tipo(n))
    } else {
        Ok(
            VistaVivienda {
                identificacion: f[0],
                calle: f[1],
                numero: i32_de_texto(f[2])->0,
                piso: f[3],
                codigo_postal: f[4],
                metros_cuadrados: i32_de_texto(f[5])->0,
                numero_aseos: i32_de_texto(f[6])->0,
                numero_habitaciones: i32_de_texto(f[7])->0,
                tipo: Tipo::de_etiqueta(f[8])->Ok_0,
            },
        )
    }
}

/// La tabla que describe las viviendas `vs`: vacía si no hay ninguna; si
/// no, la cabecera y una fila por vivienda, en el mismo orden.
pub open spec fn filas_de(vs: Seq<VistaVivienda>) -> Seq<Seq<Seq<char>>> {
    if vs.len() == 0 {
        Seq::empty()
    } else {
        seq![cabecera()] + Seq::new(vs.len(), |i: int| fila_de(vs[i]))
    }
}

/// Las viviendas de las filas `1..k` de la tabla, o el error de la primera
/// fila que no describe ninguna.
pub open spec fn viviendas_hasta(filas: Seq<Seq<Seq<char>>>, k: int) -> Result<
    Seq<VistaVivienda>,
    ErrorCarga,
>
    decreases k,
{
    if k <= 1 {
        Ok(Seq::empty())
    } else {
        match viviendas_hasta(filas, k - 1) {
            Err(e) => Err(e),
            Ok(vs) => match vivienda_de_fila(filas[k - 1], (k - 1) as usize) {
                Err(e) => Err(e),
                Ok(v) => Ok(vs.push(v)),
            },
        }
    }
}

/// Las viviendas que describe una tabla. Una tabla sin filas no describe
/// ninguna; si tiene filas, la primera ha de ser la cabecera.
pub open spec fn viviendas_de_filas(filas: Seq<Seq<Seq<char>>>) -> Result<
    Seq<VistaVivienda>,
    ErrorCarga,
> {
    if filas.len() == 0 {
        Ok(Seq::empty())
    } else if filas[0] != cabecera() {
        Err(ErrorCarga::Cabecera)
    } else {
        viviendas_hasta(filas, filas.len() as int)
    }
}

/// La fila de una vivienda se lee como esa misma vivienda.
pub proof fn lema_fila_ida_y_vuelta(v: VistaVivienda, n: usize)
    ensures
        vivienda_de_fila(fila_de(v), n) == Ok::<VistaVivienda, ErrorCarga>(v),
{
    lema_escribir_y_leer_i32(v.numero);
    lema_escribir_y_leer_i32(v.metros_cuadrados);
    lema_escribir_y_leer_i32(v.numero_aseos);
    lema_escribir_y_leer_i32(v.numero_habitaciones);
    lema_etiqueta_ida_y_vuelta(v.tipo);
}

/// Las primeras filas de la tabla de unas viviendas se leen como las
/// primeras de esas viviendas.
proof fn lema_hasta_ida_y_vuelta(vs: Seq<VistaVivienda>, k: int)
    requires
        1 <= k <= vs.len() + 1,
        vs.len() > 0,
    ensures
        viviendas_hasta(filas_de(vs), k) == Ok::<Seq<VistaVivienda>, ErrorCarga>(vs.take(k - 1)),
    decreases k,
{
    if k <= 1 {
        assert(vs.take(0) =~= Seq::<VistaVivienda>::empty());
    } else {
        lema_hasta_ida_y_vuelta(vs, k - 1);
        lema_fila_ida_y_vuelta(vs[k - 2], (k - 1) as usize);
        assert(vs.take(k - 2).push(vs[k - 2]) =~= vs.take(k - 1));
    }
}

/// La tabla de unas viviendas se lee como esas mismas viviendas, en el
/// mismo orden.
pub proof fn lema_filas_ida_y_vuelta(vs: Seq<VistaVivienda>)
    ensures
        viviendas_de_filas(filas_de(vs)) == Ok::<Seq<VistaVivienda>, ErrorCarga>(vs),
{
    if vs.len() == 0 {
        assert(vs =~= Seq::<VistaVivienda>::empty());
    } else {
        lema_hasta_ida_y_vuelta(vs, vs.len() as int + 1);
        assert(vs.take(vs.len() as int) =~= vs);
    }
}

/// Compone la fila de cabecera.
pub fn fila_cabecera() -> (f: Vec<String>)
    ensures
        f.deep_view() == cabecera(),
{
    let mut f: Vec<String> = Vec::new();
    f.push("identificacion".to_owned());
    f.push("calle".to_owned());
    f.push("numero".to_owned());
    f.push("piso".to_owned());
    f.push("codigo_postal".to_owned());
    f.push("metros_cuadrados".to_owned());
    f.push("numero_aseos".to_owned());
    f.push("numero_habitaciones".to_owned());
    f.push("tipo".to_owned());
    f
}

/// Compone la fila que describe una vivienda.
pub fn fila_de_registro(r: &TipoVivienda) -> (f: Vec<String>)
    ensures
        f.deep_view() == fila_de(r@),
{
    let mut f: Vec<String> = Vec::new();
    f.push(r.identificacion.clone());
    f.push(r.calle.clone());
    f.push(texto_i32(r.numero));
    f.push(r.piso.clone());
    f.push(r.codigo_postal.clone());
    f.push(texto_i32(r.metros_cuadrados));
    f.push(texto_i32(r.numero_aseos));
    f.push(texto_i32(r.numero_habitaciones));
    f.push(r.tipo.to_string());
    f
}

/// Lee la vivienda que describe la fila `f`, que en la tabla ocupa el lugar
/// `n`.
pub fn registro_de_fila(f: &Vec<String>, n: usize) -> (r: Result<TipoVivienda, ErrorCarga>)
    ensures
        match r {
            Ok(v) => vivienda_de_fila(f.deep_view(), n) == Ok::<VistaVivienda, ErrorCarga>(v@),
            Err(e) => vivienda_de_fila(f.deep_view(), n) == Err::<VistaVivienda, ErrorCarga>(e),
        },
{
    if f.len() != COLUMNAS {
        return Err(ErrorCarga::Columnas(n));
    }
    let numero = parse_i32(f[2].as_str());
    let metros_cuadrados = parse_i32(f[5].as_str());
    let numero_aseos = parse_i32(f[6].as_str());
    let numero_habitaciones = parse_i32(f[7].as_str());
    match (numero, metros_cuadrados, numero_aseos, numero_habitaciones) {
        (Some(numero), Some(metros_cuadrados), Some(numero_aseos), Some(numero_habitaciones)) => {
            match Tipo::from_str(f[8].as_str()) {
                Ok(tipo) => Ok(
                    TipoVivienda {
                        identificacion: f[0].clone(),
                        calle: f[1].clone(),
                        numero,
                        piso: f[3].clone(),
                        codigo_postal: f[4].clone(),
                        metros_cuadrados,
                        numero_aseos,
                        numero_habitaciones,
                        tipo,
                    },
                ),
                Err(_) => Err(ErrorCarga::Tipo(n)),
            }
        },
        _ => Err(ErrorCarga::Numero(n)),
    }
}

/// Dice si dos filas tienen los mismos textos.
fn misma_fila(a: &Vec<String>, b: &Vec<String>) -> (r: bool)
    ensures
        r == (a.deep_view() == b.deep_view()),
{
    if a.len() != b.len() {
        assert(a.deep_view().len() != b.deep_view().len());
        return false;
    }
    let mut i: usize = 0;
    while i < a.len()
        invariant
            0 <= i <= a.len(),
            a.len() == b.len(),
            forall|j: int| 0 <= j < i ==> a[j]@ == b[j]@,
        decreases a.len() - i,
    {
        if a[i] != b[i] {
            assert(a.deep_view()[i as int] != b.deep_view()[i as int]);
            return false;
        }
        i += 1;
    }
    assert(a.deep_view() =~= b.deep_view());
    true
}

/// Compone la tabla que describe las viviendas `datos`.
pub fn filas_de_registros(datos: &Vec<TipoVivienda>) -> (filas: Vec<Vec<String>>)
    ensures
        filas.deep_view() == filas_de(datos.deep_view()),
{
    let mut filas: Vec<Vec<String>> = Vec::new();
    if datos.len() == 0 {
        return filas;
    }
    filas.push(fila_cabecera());
    let mut i: usize = 0;
    while i < datos.len()
        invariant
            0 <= i <= datos.len(),
            filas.len() == i + 1,
            filas[0].deep_view() == cabecera(),
            forall|j: int| 0 <= j < i ==> (#[trigger] filas[j + 1]).deep_view() == fila_de(datos[j]@),
        decreases datos.len() - i,
    {
        filas.push(fila_de_registro(&datos[i]));
        i += 1;
    }
    assert(filas.deep_view() =~= filas_de(datos.deep_view())) by {
        let a = filas.deep_view();
        let b = filas_de(datos.deep_view());
        assert forall|k: int| 0 <= k < a.len() implies a[k] == b[k] by {
            if k > 0 {
                assert(filas[(k - 1) + 1].deep_view() == fila_de(datos[k - 1]@));
            }
        }
    }
    filas
}

/// Lee las viviendas que describe una tabla, en el orden de sus filas.
pub fn registros_de_filas(filas: &Vec<Vec<String>>) -> (r: Result<Vec<TipoVivienda>, ErrorCarga>)
    ensures
        match r {
            Ok(vs) => viviendas_de_filas(filas.deep_view()) == Ok::<Seq<VistaVivienda>, ErrorCarga>(
                vs.deep_view(),
            ),
            Err(e) => viviendas_de_filas(filas.deep_view()) == Err::<Seq<VistaVivienda>, ErrorCarga>(
                e,
            ),
        },
{
    let mut vs: Vec<TipoVivienda> = Vec::new();
    if filas.len() == 0 {
        assert(vs.deep_view() =~= Seq::<VistaVivienda>::empty());
        return Ok(vs);
    }
    let ghost tabla = filas.deep_view();
    if !misma_fila(&filas[0], &fila_cabecera()) {
        return Err(ErrorCarga::Cabecera);
    }
    assert(vs.deep_view() =~= Seq::<VistaVivienda>::empty());
    let mut k: usize = 1;
    while k < filas.len()
        invariant
            1 <= k <= filas.len(),
            tabla == filas.deep_view(),
            tabla[0] == cabecera(),
            viviendas_hasta(tabla, k as int) == Ok::<Seq<VistaVivienda>, ErrorCarga>(vs.deep_view()),
        decreases filas.len() - k,
    {
        let ghost antes = vs.deep_view();
        match registro_de_fila(&filas[k], k) {
            Ok(v) => {
                vs.push(v);
                assert(vs.deep_view() =~= antes.push(v@));
            },
            Err(e) => {
                proof {
                    lema_error_se_conserva(tabla, k as int + 1, filas.len() as int);
                }
                return Err(e);
            },
        }
        k += 1;
    }
    Ok(vs)
}

/// Un error en las primeras filas es el error de toda la tabla.
proof fn lema_error_se_conserva(filas: Seq<Seq<Seq<char>>>, k: int, n: int)
    requires
        k <= n,
        viviendas_hasta(filas, k) is Err,
    ensures
        viviendas_hasta(filas, n) == viviendas_hasta(filas, k),
    decreases n - k,
{
    if k < n {
        lema_error_se_conserva(filas, k, n - 1);
    }
}

} // verus!
