//! Registro de tipos de vivienda: un índice en memoria, con identificadores
//! únicos, que se refleja en un archivo CSV.

pub mod dao;
pub mod decimal;
pub mod edicion;
pub mod entidad;
pub mod filas;
pub mod indice;
pub mod tabla;
pub mod tipo;

pub use crate::dao::TipoViviendaDAO;
pub use crate::entidad::{ScreenOutput, TipoVivienda, TipoViviendaBD};
pub use crate::filas::ErrorCarga;
pub use crate::tabla::ErrorGuardado;
pub use crate::tipo::Tipo;
