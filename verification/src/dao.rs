//! El registro de viviendas: un índice en memoria junto al texto del archivo
//! que lo respalda.

use crate::entidad::{entrada_de_vivienda, ScreenOutput, TipoVivienda, VistaVivienda};
use crate::filas::ErrorCarga;
use crate::indice::{
    actualizado, agregado, cargados, contiene, lema_actualizado_sin_repetidos,
    lema_agregado_sin_repetidos, lema_cargados_sin_cambio, lema_cargados_sin_repetidos, lema_mapa,
    lema_mapa_actualizado, lema_mapa_agregado, lema_mapa_contiene, lema_mapa_quitado,
    lema_posicion, lema_posicion_es, lema_quitado_sin_repetidos, mapa_de, posicion, quitado,
    sin_repetidos,
};
use crate::tabla::{
    registros_de_csv, texto_de_guardar, texto_para_guardar, viviendas_de_csv, ErrorGuardado,
};
use vstd::prelude::*;

verus! {

/// El índice que resulta de leer el texto de un archivo.
pub open spec fn indice_de_csv(datos: Seq<u8>) -> Result<Seq<VistaVivienda>, ErrorCarga> {
    match viviendas_de_csv(datos) {
        Ok(rs) => Ok(cargados(rs)),
        Err(e) => Err(e),
    }
}

/// Las entradas de las viviendas `vs`, una tras otra, separadas por una coma
/// y un espacio.
pub open spec fn entradas_de(vs: Seq<VistaVivienda>) -> Seq<char>
    decreases vs.len(),
{
    if vs.len() == 0 {
        Seq::empty()
    } else if vs.len() == 1 {
        entrada_de_vivienda(vs[0])
    } else {
        entradas_de(vs.drop_last()) + ", "@ + entrada_de_vivienda(vs.last())
    }
}

/// El volcado de un índice: sus entradas entre llaves.
pub open spec fn volcado_de(vs: Seq<VistaVivienda>) -> Seq<char> {
    "{"@ + entradas_de(vs) + "}"@
}

/// Guardar unas viviendas sin identificadores repetidos y volver a leer el
/// índice del texto guardado da esas mismas viviendas, en su mismo orden;
/// en particular, guardar el listado de un registro y recargarlo deja el
/// listado como estaba.
pub proof fn lema_guardar_y_recargar(vs: Seq<VistaVivienda>)
    requires
        sin_repetidos(vs),
        texto_de_guardar(vs) is Ok,
    ensures
        indice_de_csv(texto_de_guardar(vs)->Ok_0) == Ok::<Seq<VistaVivienda>, ErrorCarga>(vs),
{
    lema_cargados_sin_cambio(vs);
}

/// Busca en `vs` la primera vivienda con identificador `id`.
fn buscar(vs: &Vec<TipoVivienda>, id: &String) -> (i: usize)
    ensures
        i == posicion(vs.deep_view(), id@),
        i <= vs.len(),
        i < vs.len() <==> contiene(vs.deep_view(), id@),
{
    let mut i: usize = 0;
    while i < vs.len()
        invariant
            0 <= i <= vs.len(),
            forall|j: int| 0 <= j < i ==> (#[trigger] vs.deep_view()[j]).identificacion != id@,
        decreases vs.len() - i,
    {
        if vs[i].identificacion == *id {
            proof {
                lema_posicion_es(vs.deep_view(), id@, i as int);
            }
            return i;
        }
        i += 1;
    }
    proof {
        lema_posicion_es(vs.deep_view(), id@, i as int);
    }
    i
}

/// Compone el índice que resulta de leer las viviendas `rs` una tras otra.
fn cargar(rs: &Vec<TipoVivienda>) -> (vs: Vec<TipoVivienda>)
    ensures
        vs.deep_view() == cargados(rs.deep_view()),
{
    let mut vs: Vec<TipoVivienda> = Vec::new();
    let mut k: usize = 0;
    while k < rs.len()
        invariant
            0 <= k <= rs.len(),
            vs.deep_view() == cargados(rs.deep_view().take(k as int)),
        decreases rs.len() - k,
    {
        assert(rs.deep_view().take(k as int + 1).drop_last() =~= rs.deep_view().take(k as int));
        let v = rs[k].clone();
        let i = buscar(&vs, &v.identificacion);
        if i < vs.len() {
            vs.set(i, v);
        } else {
            vs.push(v);
        }
        k += 1;
    }
    assert(rs.deep_view().take(rs.len() as int) =~= rs.deep_view());
    vs
}

/// El registro de viviendas. Guarda el índice en memoria y, a su lado, el
/// texto del archivo del que se leyó o en el que se guardó por última vez.
pub struct TipoViviendaDAO {
    indice: Vec<TipoVivienda>,
    archivo: Vec<u8>,
}

impl View for TipoViviendaDAO {
    type V = Map<Seq<char>, VistaVivienda>;

    /// El registro como correspondencia de identificador a vivienda.
    open spec fn view(&self) -> Map<Seq<char>, VistaVivienda> {
        mapa_de(self.registros())
    }
}

impl TipoViviendaDAO {
    /// En el índice no hay identificadores repetidos, y el texto del archivo
    /// siempre puede volver a leerse.
    #[verifier::type_invariant]
    spec fn coherente(&self) -> bool {
        &&& sin_repetidos(self.indice.deep_view())
        &&& indice_de_csv(self.archivo@) is Ok
    }

    /// Las viviendas del índice, en el orden en que se listan.
    pub closed spec fn registros(&self) -> Seq<VistaVivienda> {
        self.indice.deep_view()
    }

    /// El texto del archivo de respaldo.
    pub closed spec fn contenido(&self) -> Seq<u8> {
        self.archivo@
    }

    /// Construye el registro a partir del texto de su archivo. Si el texto
    /// no describe un conjunto de viviendas, no hay registro.
    pub fn new(contenido: Vec<u8>) -> (r: Result<TipoViviendaDAO, ErrorCarga>)
        ensures
            match indice_de_csv(contenido@) {
                Ok(vs) => r matches Ok(d) && d.registros() == vs && d.contenido() == contenido@,
                Err(e) => r matches Err(x) && x == e,
            },
            r matches Ok(d) ==> sin_repetidos(d.registros()),
    {
        match registros_de_csv(&contenido) {
            Ok(rs) => {
                let indice = cargar(&rs);
                proof {
                    lema_cargados_sin_repetidos(rs.deep_view());
                }
                Ok(TipoViviendaDAO { indice, archivo: contenido })
            },
            Err(e) => Err(e),
        }
    }

    /// Una copia independiente de todas las viviendas del índice.
    #[allow(non_snake_case)]
    pub fn asVector(&self) -> (datos: Vec<TipoVivienda>)
        ensures
            datos.deep_view() == self.registros(),
            sin_repetidos(datos.deep_view()),
    {
        proof {
            use_type_invariant(self);
        }
        let mut datos: Vec<TipoVivienda> = Vec::new();
        let mut i: usize = 0;
        while i < self.indice.len()
            invariant
                0 <= i <= self.indice.len(),
                datos.len() == i,
                forall|j: int| 0 <= j < i ==> (#[trigger] datos[j])@ == self.indice[j]@,
            decreases self.indice.len() - i,
        {
            datos.push(self.indice[i].clone());
            i += 1;
        }
        datos
    }

    /// Da de alta la vivienda `p` si su identificador es nuevo. Si ya hay
    /// una con ese identificador, no hace nada: ni la sustituye ni avisa.
    pub fn add(&mut self, p: TipoVivienda)
        ensures
            final(self).registros() == agregado(old(self).registros(), p@),
            final(self).contenido() == old(self).contenido(),
            final(self)@ == if old(self)@.contains_key(p@.identificacion) {
                old(self)@
            } else {
                old(self)@.insert(p@.identificacion, p@)
            },
            sin_repetidos(final(self).registros()),
    {
        proof {
            use_type_invariant(&*self);
            lema_agregado_sin_repetidos(self.registros(), p@);
            lema_mapa_agregado(self.registros(), p@);
        }
        let i = buscar(&self.indice, &p.identificacion);
        if i == self.indice.len() {
            let mut vs = self.sacar_indice();
            let ghost antes = vs.deep_view();
            vs.push(p);
            assert(vs.deep_view() =~= antes.push(p@));
            self.indice = vs;
        }
    }

    /// Sustituye por `p` la vivienda que lleva su identificador. Si no hay
    /// ninguna, no hace nada: ni la añade ni avisa.
    pub fn update(&mut self, p: TipoVivienda)
        ensures
            final(self).registros() == actualizado(old(self).registros(), p@),
            final(self).contenido() == old(self).contenido(),
            final(self)@ == if old(self)@.contains_key(p@.identificacion) {
                old(self)@.insert(p@.identificacion, p@)
            } else {
                old(self)@
            },
            sin_repetidos(final(self).registros()),
    {
        proof {
            use_type_invariant(&*self);
            lema_actualizado_sin_repetidos(self.registros(), p@);
            lema_mapa_actualizado(self.registros(), p@);
        }
        let i = buscar(&self.indice, &p.identificacion);
        if i < self.indice.len() {
            let mut vs = self.sacar_indice();
            let ghost antes = vs.deep_view();
            let ghost vista = p@;
            vs.set(i, p);
            assert(vs.deep_view() =~= antes.update(i as int, vista));
            self.indice = vs;
        }
    }

    /// Da de baja la vivienda con identificador `key` y la devuelve. Si no
    /// hay ninguna, no hace nada y no devuelve nada.
    pub fn remove(&mut self, key: &String) -> (r: Option<TipoVivienda>)
        ensures
            final(self).registros() == quitado(old(self).registros(), key@),
            final(self).contenido() == old(self).contenido(),
            final(self)@ == old(self)@.remove(key@),
            match r {
                Some(v) => old(self)@.contains_key(key@) && v@ == old(self)@[key@],
                None => !old(self)@.contains_key(key@),
            },
            sin_repetidos(final(self).registros()),
    {
        proof {
            use_type_invariant(&*self);
            lema_mapa_quitado(self.registros(), key@);
            lema_mapa(self.registros());
        }
        let i = buscar(&self.indice, key);
        if i < self.indice.len() {
            let mut vs = self.sacar_indice();
            let ghost antes = vs.deep_view();
            let v = vs.remove(i);
            assert(vs.deep_view() =~= antes.remove(i as int));
            self.indice = vs;
            Some(v)
        } else {
            None
        }
    }

    /// Dice si hay una vivienda con identificador `key`.
    pub fn existe(&self, key: &String) -> (r: bool)
        ensures
            r == self@.contains_key(key@),
    {
        proof {
            lema_mapa_contiene(self.registros(), key@);
        }
        buscar(&self.indice, key) < self.indice.len()
    }

    /// El texto del archivo de respaldo, tal como quedó al construir el
    /// registro o al guardar por última vez.
    pub fn archivo(&self) -> (texto: &Vec<u8>)
        ensures
            texto@ == self.contenido(),
            indice_de_csv(texto@) is Ok,
    {
        proof {
            use_type_invariant(self);
        }
        &self.archivo
    }

    /// Descarta el índice y lo vuelve a leer del texto del archivo. Las
    /// altas, bajas y modificaciones que no se hubieran guardado se pierden.
    pub fn refresh(&mut self)
        ensures
            final(self).contenido() == old(self).contenido(),
            indice_de_csv(old(self).contenido()) == Ok::<Seq<VistaVivienda>, ErrorCarga>(
                final(self).registros(),
            ),
            sin_repetidos(final(self).registros()),
    {
        proof {
            use_type_invariant(&*self);
        }
        // El texto del archivo siempre puede leerse: es parte del invariante.
        if let Ok(rs) = registros_de_csv(&self.archivo) {
            let vs = cargar(&rs);
            proof {
                lema_cargados_sin_repetidos(rs.deep_view());
            }
            self.indice = vs;
        }
    }

    /// Sustituye el texto del archivo por el que describe las viviendas
    /// `datos`, que son todas las que han de quedar guardadas: las del
    /// índice no cuentan, y el índice no cambia. Antes de darlo por bueno
    /// vuelve a leer el texto; si algo falla, el archivo queda como estaba.
    pub fn save(&mut self, datos: &Vec<TipoVivienda>) -> (r: Result<(), ErrorGuardado>)
        ensures
            final(self).registros() == old(self).registros(),
            match texto_de_guardar(datos.deep_view()) {
                Ok(texto) => r is Ok && final(self).contenido() == texto,
                Err(e) => r == Err::<(), ErrorGuardado>(e) && final(self).contenido() == old(
                    self,
                ).contenido(),
            },
    {
        proof {
            use_type_invariant(&*self);
        }
        match texto_para_guardar(datos) {
            Ok(texto) => {
                self.archivo = texto;
                Ok(())
            },
            Err(e) => Err(e),
        }
    }

    /// Guarda las viviendas `datos` y después vuelve a leer el índice del
    /// archivo, haya ido bien el guardado o no. Si fue bien, el índice queda
    /// con lo guardado; si no, con lo que el archivo tenía antes, y se
    /// devuelve el error del guardado.
    pub fn save_and_refresh(&mut self, datos: &Vec<TipoVivienda>) -> (r: Result<
        (),
        ErrorGuardado,
    >)
        ensures
            match texto_de_guardar(datos.deep_view()) {
                Ok(texto) => {
                    &&& r is Ok
                    &&& final(self).contenido() == texto
                    &&& final(self).registros() == cargados(datos.deep_view())
                },
                Err(e) => {
                    &&& r == Err::<(), ErrorGuardado>(e)
                    &&& final(self).contenido() == old(self).contenido()
                    &&& indice_de_csv(old(self).contenido()) == Ok::<
                        Seq<VistaVivienda>,
                        ErrorCarga,
                    >(final(self).registros())
                },
            },
            r is Ok && sin_repetidos(datos.deep_view()) ==> final(self).registros()
                == datos.deep_view(),
            sin_repetidos(final(self).registros()),
    {
        proof {
            if sin_repetidos(datos.deep_view()) && texto_de_guardar(datos.deep_view()) is Ok {
                lema_guardar_y_recargar(datos.deep_view());
            }
        }
        let r = self.save(datos);
        self.refresh();
        r
    }

    /// Saca el índice para modificarlo y deja en su lugar uno vacío.
    fn sacar_indice(&mut self) -> (vs: Vec<TipoVivienda>)
        ensures
            vs == old(self).indice,
            final(self).archivo == old(self).archivo,
    {
        proof {
            use_type_invariant(&*self);
        }
        let mut vs: Vec<TipoVivienda> = Vec::new();
        core::mem::swap(&mut self.indice, &mut vs);
        vs
    }
}

impl ScreenOutput for TipoViviendaDAO {
    /// El volcado del índice, con las viviendas en el orden del listado.
    open spec fn en_pantalla(&self) -> Seq<char> {
        volcado_de(self.registros())
    }

    /// Compone el volcado del índice.
    #[allow(non_snake_case)]
    fn toScreen(&self) -> (s: String) {
        let mut s = "{".to_owned();
        let mut i: usize = 0;
        while i < self.indice.len()
            invariant
                0 <= i <= self.indice.len(),
                s@ == "{"@ + entradas_de(self.indice.deep_view().take(i as int)),
            decreases self.indice.len() - i,
        {
            assert(self.indice.deep_view().take(i as int + 1).drop_last()
                =~= self.indice.deep_view().take(i as int));
            if i > 0 {
                s.append(", ");
            }
            s.append(self.indice[i].entrada().as_str());
            i += 1;
        }
        assert(self.indice.deep_view().take(self.indice.len() as int) =~= self.indice.deep_view());
        s.append("}");
        s
    }
}

} // verus!
