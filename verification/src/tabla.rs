//! El texto CSV de una tabla. De partir el texto en filas y campos, y de
//! entrecomillar los campos al escribir, se encarga la biblioteca `csv`.

use crate::entidad::{TipoVivienda, VistaVivienda};
use crate::filas::{filas_de, filas_de_registros, registros_de_filas, viviendas_de_filas, ErrorCarga};
use vstd::prelude::*;

verus! {

/// El error de la biblioteca `csv`. De él no se mira nada: basta con saber
/// que lo hubo.
#[verifier::external_type_specification]
#[verifier::external_body]
pub struct ExErrorCsv(csv::Error);

/// Por qué no pudo componerse el texto de un archivo.
#[derive(Debug, Clone, Copy, PartialEq, Eq, Structural)]
pub enum ErrorGuardado {
    /// La biblioteca `csv` rechazó las filas.
    Csv,
    /// El texto escrito, vuelto a leer, no describe las mismas viviendas.
    Relectura,
}

/// Las filas que la biblioteca `csv` lee de un texto, cada una con sus
/// campos; `None` si rechaza el texto.
pub uninterp spec fn filas_de_csv(datos: Seq<u8>) -> Option<Seq<Seq<Seq<char>>>>;

/// El texto que la biblioteca `csv` escribe para unas filas; `None` si las
/// rechaza.
pub uninterp spec fn csv_de_filas(filas: Seq<Seq<Seq<char>>>) -> Option<Seq<u8>>;

/// Lee todas las filas de `datos` con `csv::Reader::records`, sobre un
/// lector que `csv::ReaderBuilder` configura sin fila de cabecera, de modo
/// que la primera fila también se devuelve. El contrato solo le da nombre
/// a lo leído, que depende nada más que de `datos`.
#[verifier::external_body]
fn leer_csv(datos: &Vec<u8>) -> (r: Result<Vec<Vec<String>>, csv::Error>)
    ensures
        match r {
            Ok(filas) => filas_de_csv(datos@) == Some(filas.deep_view()),
            Err(_) => filas_de_csv(datos@) is None,
        },
{
    let mut lector = csv::ReaderBuilder::new().has_headers(false).from_reader(datos.as_slice());
    let mut filas = Vec::new();
    for fila in lector.records() {
        filas.push(fila?.iter().map(String::from).collect());
    }
    Ok(filas)
}

/// Escribe las filas con `csv::Writer::write_record`, una tras otra, sobre
/// un búfer en memoria, y devuelve el búfer. El contrato solo le da nombre
/// a lo escrito, que depende nada más que de las filas.
#[verifier::external_body]
fn escribir_csv(filas: &Vec<Vec<String>>) -> (r: Result<Vec<u8>, csv::Error>)
    ensures
        match r {
            Ok(datos) => csv_de_filas(filas.deep_view()) == Some(datos@),
            Err(_) => csv_de_filas(filas.deep_view()) is None,
        },
{
    let mut escritor = csv::WriterBuilder::new().from_writer(Vec::new());
    for fila in filas {
        escritor.write_record(fila)?;
    }
    match escritor.into_inner() {
        Ok(datos) => Ok(datos),
        Err(e) => Err(csv::Error::from(e.into_error())),
    }
}

/// Las viviendas que describe el texto de un archivo, en el orden de sus
/// filas.
pub open spec fn viviendas_de_csv(datos: Seq<u8>) -> Result<Seq<VistaVivienda>, ErrorCarga> {
    match filas_de_csv(datos) {
        None => Err(ErrorCarga::Csv),
        Some(filas) => viviendas_de_filas(filas),
    }
}

/// El texto de archivo que describe las viviendas `vs`.
pub open spec fn csv_de_viviendas(vs: Seq<VistaVivienda>) -> Result<Seq<u8>, ErrorGuardado> {
    match csv_de_filas(filas_de(vs)) {
        None => Err(ErrorGuardado::Csv),
        Some(datos) => Ok(datos),
    }
}

/// Lee las viviendas que describe el texto de un archivo.
pub fn registros_de_csv(datos: &Vec<u8>) -> (r: Result<Vec<TipoVivienda>, ErrorCarga>)
    ensures
        match r {
            Ok(vs) => viviendas_de_csv(datos@) == Ok::<Seq<VistaVivienda>, ErrorCarga>(
                vs.deep_view(),
            ),
            Err(e) => viviendas_de_csv(datos@) == Err::<Seq<VistaVivienda>, ErrorCarga>(e),
        },
{
    match leer_csv(datos) {
        Ok(filas) => registros_de_filas(&filas),
        Err(_) => Err(ErrorCarga::Csv),
    }
}

/// Compone el texto de archivo que describe las viviendas `datos`.
pub fn csv_de_registros(datos: &Vec<TipoVivienda>) -> (r: Result<Vec<u8>, ErrorGuardado>)
    ensures
        match r {
            Ok(texto) => csv_de_viviendas(datos.deep_view()) == Ok::<Seq<u8>, ErrorGuardado>(
                texto@,
            ),
            Err(e) => csv_de_viviendas(datos.deep_view()) == Err::<Seq<u8>, ErrorGuardado>(e),
        },
{
    let filas = filas_de_registros(datos);
    match escribir_csv(&filas) {
        Ok(texto) => Ok(texto),
        Err(_) => Err(ErrorGuardado::Csv),
    }
}

/// El texto con el que se guardan las viviendas `vs`: el que escribe la
/// biblioteca `csv`, siempre que al volver a leerlo describa esas mismas
/// viviendas en ese mismo orden.
pub open spec fn texto_de_guardar(vs: Seq<VistaVivienda>) -> Result<Seq<u8>, ErrorGuardado> {
    match csv_de_viviendas(vs) {
        Err(e) => Err(e),
        Ok(texto) => if viviendas_de_csv(texto) == Ok::<Seq<VistaVivienda>, ErrorCarga>(vs) {
            Ok(texto)
        } else {
            Err(ErrorGuardado::Relectura)
        },
    }
}

/// Dice si dos listas tienen las mismas viviendas en el mismo orden.
pub fn mismos_registros(a: &Vec<TipoVivienda>, b: &Vec<TipoVivienda>) -> (r: bool)
    ensures
        r == (a.deep_view() == b.deep_view()),
{
    if a.len() != b.len() {
        assert(a.deep_view().len() != b.deep_view().len());
        return false;
    }
    let mut i: usize = 0;
    while i < a.len()
        invariant
            0 <= i <= a.len(),
            a.len() == b.len(),
            forall|j: int| 0 <= j < i ==> a[j]@ == b[j]@,
        decreases a.len() - i,
    {
        if !a[i].igual(&b[i]) {
            assert(a.deep_view()[i as int] != b.deep_view()[i as int]);
            return false;
        }
        i += 1;
    }
    assert(a.deep_view() =~= b.deep_view());
    true
}

/// Compone el texto con el que se guardan las viviendas `datos`, y lo
/// vuelve a leer para comprobar que nada se pierde.
pub fn texto_para_guardar(datos: &Vec<TipoVivienda>) -> (r: Result<Vec<u8>, ErrorGuardado>)
    ensures
        match r {
            Ok(texto) => texto_de_guardar(datos.deep_view()) == Ok::<Seq<u8>, ErrorGuardado>(
                texto@,
            ),
            Err(e) => texto_de_guardar(datos.deep_view()) == Err::<Seq<u8>, ErrorGuardado>(e),
        },
{
    match csv_de_registros(datos) {
        Err(e) => Err(e),
        Ok(texto) => match registros_de_csv(&texto) {
            Ok(leidos) => if mismos_registros(&leidos, datos) {
                Ok(texto)
            } else {
                Err(ErrorGuardado::Relectura)
            },
            Err(_) => Err(ErrorGuardado::Relectura),
        },
    }
}

} // verus!
