//! Los registros de vivienda y su presentación en pantalla.

use crate::decimal::{texto_de_entero, texto_i32};
use crate::tipo::Tipo;
use vstd::prelude::*;

verus! {

/// Lo que puede mostrarse en una línea de pantalla.
pub trait ScreenOutput {
    /// El texto que se muestra.
    spec fn en_pantalla(&self) -> Seq<char>;

    /// Compone el texto que se muestra.
    #[allow(non_snake_case)]
    fn toScreen(&self) -> (s: String)
        ensures
            s@ == self.en_pantalla(),
    ;
}

/// Una vivienda tal como la ven los contratos: sus textos, carácter a
/// carácter, y sus números.
#[verifier::ext_equal]
pub struct VistaVivienda {
    pub identificacion: Seq<char>,
    pub calle: Seq<char>,
    pub numero: i32,
    pub piso: Seq<char>,
    pub codigo_postal: Seq<char>,
    pub metros_cuadrados: i32,
    pub numero_aseos: i32,
    pub numero_habitaciones: i32,
    pub tipo: Tipo,
}

/// Una vivienda del registro. `identificacion` la distingue de las demás.
#[derive(Debug)]
pub struct TipoVivienda {
    pub identificacion: String,
    pub calle: String,
    pub numero: i32,
    pub piso: String,
    pub codigo_postal: String,
    pub metros_cuadrados: i32,
    pub numero_aseos: i32,
    pub numero_habitaciones: i32,
    pub tipo: Tipo,
}

/// Una vivienda como fila de una tabla relacional: la clase va en texto.
#[derive(Debug)]
pub struct TipoViviendaBD {
    pub identificacion: String,
    pub calle: String,
    pub numero: i32,
    pub piso: String,
    pub codigo_postal: String,
    pub metros_cuadrados: i32,
    pub numero_aseos: i32,
    pub numero_habitaciones: i32,
    pub tipo: String,
}

impl View for TipoVivienda {
    type V = VistaVivienda;

    /// La vivienda con sus textos vistos carácter a carácter.
    open spec fn view(&self) -> VistaVivienda {
        VistaVivienda {
            identificacion: self.identificacion@,
            calle: self.calle@,
            numero: self.numero,
            piso: self.piso@,
            codigo_postal: self.codigo_postal@,
            metros_cuadrados: self.metros_cuadrados,
            numero_aseos: self.numero_aseos,
            numero_habitaciones: self.numero_habitaciones,
            tipo: self.tipo,
        }
    }
}

impl DeepView for TipoVivienda {
    type V = VistaVivienda;

    /// Lo mismo que la vista.
    open spec fn deep_view(&self) -> VistaVivienda {
        self@
    }
}

impl Clone for TipoVivienda {
    /// Una copia independiente, igual campo por campo.
    fn clone(&self) -> (r: Self)
        ensures
            r@ == self@,
    {
        TipoVivienda {
            identificacion: self.identificacion.clone(),
            calle: self.calle.clone(),
            numero: self.numero,
            piso: self.piso.clone(),
            codigo_postal: self.codigo_postal.clone(),
            metros_cuadrados: self.metros_cuadrados,
            numero_aseos: self.numero_aseos,
            numero_habitaciones: self.numero_habitaciones,
            tipo: self.tipo,
        }
    }
}

/// Lo que el formato `{:?}` escribe para un texto: el texto entre comillas,
/// con sus caracteres especiales escapados.
pub uninterp spec fn texto_entre_comillas(s: Seq<char>) -> Seq<char>;

/// Llama al formato `{:?}` de la biblioteca estándar sobre un texto. El
/// contrato solo le da nombre al resultado, que depende nada más que del
/// texto recibido.
#[verifier::external_body]
fn entre_comillas(s: &String) -> (r: String)
    ensures
        r@ == texto_entre_comillas(s@),
{
    format!("{:?}", s)
}

/// La línea de pantalla de una vivienda: sus nueve campos separados por
/// comas, los textos entre comillas y los números en decimal.
pub open spec fn linea_de_vivienda(v: VistaVivienda) -> Seq<char> {
    texto_entre_comillas(v.identificacion) + ","@ + texto_entre_comillas(v.calle) + ","@
        + texto_de_entero(v.numero as int) + ","@ + texto_entre_comillas(v.piso) + ","@
        + texto_entre_comillas(v.codigo_postal) + ","@ + texto_de_entero(v.metros_cuadrados as int)
        + ","@ + texto_de_entero(v.numero_aseos as int) + ","@ + texto_de_entero(
        v.numero_habitaciones as int,
    ) + ","@ + v.tipo.etiqueta()
}

/// La descripción de una vivienda que se usa al volcar el registro entero:
/// el nombre del tipo y, entre llaves, cada campo con su nombre.
pub open spec fn descripcion_de_vivienda(v: VistaVivienda) -> Seq<char> {
    "TipoVivienda { identificacion: "@ + texto_entre_comillas(v.identificacion) + ", calle: "@
        + texto_entre_comillas(v.calle) + ", numero: "@ + texto_de_entero(v.numero as int)
        + ", piso: "@ + texto_entre_comillas(v.piso) + ", codigo_postal: "@ + texto_entre_comillas(
        v.codigo_postal,
    ) + ", metros_cuadrados: "@ + texto_de_entero(v.metros_cuadrados as int) + ", numero_aseos: "@
        + texto_de_entero(v.numero_aseos as int) + ", numero_habitaciones: "@ + texto_de_entero(
        v.numero_habitaciones as int,
    ) + ", tipo: "@ + v.tipo.etiqueta() + " }"@
}

/// Lo que se muestra de una vivienda dentro del volcado del registro: su
/// identificador entre comillas, dos puntos y su descripción.
pub open spec fn entrada_de_vivienda(v: VistaVivienda) -> Seq<char> {
    texto_entre_comillas(v.identificacion) + ": "@ + descripcion_de_vivienda(v)
}

impl TipoVivienda {
    /// Dice si dos viviendas coinciden en todos sus campos.
    pub fn igual(&self, otra: &TipoVivienda) -> (r: bool)
        ensures
            r == (self@ == otra@),
    {
        self.identificacion == otra.identificacion && self.calle == otra.calle && self.numero
            == otra.numero && self.piso == otra.piso && self.codigo_postal == otra.codigo_postal
            && self.metros_cuadrados == otra.metros_cuadrados && self.numero_aseos
            == otra.numero_aseos && self.numero_habitaciones == otra.numero_habitaciones
            && self.tipo == otra.tipo
    }

    /// Compone la entrada de la vivienda en el volcado del registro.
    pub fn entrada(&self) -> (s: String)
        ensures
            s@ == entrada_de_vivienda(self@),
    {
        let mut s = entre_comillas(&self.identificacion);
        s.append(": ");
        s.append("TipoVivienda { identificacion: ");
        s.append(entre_comillas(&self.identificacion).as_str());
        s.append(", calle: ");
        s.append(entre_comillas(&self.calle).as_str());
        s.append(", numero: ");
        s.append(texto_i32(self.numero).as_str());
        s.append(", piso: ");
        s.append(entre_comillas(&self.piso).as_str());
        s.append(", codigo_postal: ");
        s.append(entre_comillas(&self.codigo_postal).as_str());
        s.append(", metros_cuadrados: ");
        s.append(texto_i32(self.metros_cuadrados).as_str());
        s.append(", numero_aseos: ");
        s.append(texto_i32(self.numero_aseos).as_str());
        s.append(", numero_habitaciones: ");
        s.append(texto_i32(self.numero_habitaciones).as_str());
        s.append(", tipo: ");
        s.append(self.tipo.to_string().as_str());
        s.append(" }");
        s
    }
}

impl ScreenOutput for TipoVivienda {
    /// La línea de pantalla de la vivienda.
    open spec fn en_pantalla(&self) -> Seq<char> {
        linea_de_vivienda(self@)
    }

    /// Compone la línea de pantalla de la vivienda.
    #[allow(non_snake_case)]
    fn toScreen(&self) -> (s: String) {
        let mut s = entre_comillas(&self.identificacion);
        s.append(",");
        s.append(entre_comillas(&self.calle).as_str());
        s.append(",");
        s.append(texto_i32(self.numero).as_str());
        s.append(",");
        s.append(entre_comillas(&self.piso).as_str());
        s.append(",");
        s.append(entre_comillas(&self.codigo_postal).as_str());
        s.append(",");
        s.append(texto_i32(self.metros_cuadrados).as_str());
        s.append(",");
        s.append(texto_i32(self.numero_aseos).as_str());
        s.append(",");
        s.append(texto_i32(self.numero_habitaciones).as_str());
        s.append(",");
        s.append(self.tipo.to_string().as_str());
        s
    }
}

} // verus!
