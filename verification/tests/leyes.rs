use viviendas::entidad::{ScreenOutput, TipoVivienda};
use viviendas::{ErrorCarga, Tipo, TipoViviendaDAO};

const CABECERA: &str =
    "identificacion,calle,numero,piso,codigo_postal,metros_cuadrados,numero_aseos,numero_habitaciones,tipo\n";

const UNA: &str = "\"1\",\"San Isidro\",4,\"1C\",\"28350\",80,1,2,Apartamento\n";

fn archivo_de_una() -> Vec<u8> {
    format!("{}{}", CABECERA, UNA).into_bytes()
}

fn san_isidro() -> TipoVivienda {
    TipoVivienda {
        identificacion: String::from("1"),
        calle: String::from("San Isidro"),
        numero: 4,
        piso: String::from("1C"),
        codigo_postal: String::from("28350"),
        metros_cuadrados: 80,
        numero_aseos: 1,
        numero_habitaciones: 2,
        tipo: Tipo::Apartamento,
    }
}

fn chile() -> TipoVivienda {
    TipoVivienda {
        identificacion: String::from("2"),
        calle: String::from("Chile"),
        numero: 40,
        piso: String::from(""),
        codigo_postal: String::from("28350"),
        metros_cuadrados: 100,
        numero_aseos: 3,
        numero_habitaciones: 3,
        tipo: Tipo::Chalet,
    }
}

fn otra(identificacion: &str, calle: &str) -> TipoVivienda {
    TipoVivienda {
        identificacion: String::from(identificacion),
        calle: String::from(calle),
        numero: 7,
        piso: String::from("B"),
        codigo_postal: String::from("08001"),
        metros_cuadrados: 60,
        numero_aseos: 2,
        numero_habitaciones: 4,
        tipo: Tipo::Casa,
    }
}

fn lineas(dao: &TipoViviendaDAO) -> Vec<String> {
    dao.asVector().iter().map(|v| v.toScreen()).collect()
}

#[test]
fn nunca_hay_dos_viviendas_con_el_mismo_identificador() {
    let mut dao = TipoViviendaDAO::new(Vec::new()).unwrap();
    for identificacion in ["a", "b", "a", "c", "b", "a", "", ""] {
        dao.add(otra(identificacion, "x"));
        let datos = dao.asVector();
        for i in 0..datos.len() {
            for j in (i + 1)..datos.len() {
                assert_ne!(datos[i].identificacion, datos[j].identificacion);
            }
        }
    }
    assert_eq!(dao.asVector().len(), 4);
}

#[test]
fn el_alta_repetida_no_cambia_nada() {
    let mut dao = TipoViviendaDAO::new(archivo_de_una()).unwrap();
    dao.add(otra("9", "primera"));
    let antes = lineas(&dao);
    dao.add(otra("9", "segunda"));
    assert_eq!(lineas(&dao), antes);
    assert_eq!(antes[1], "\"9\",\"primera\",7,\"B\",\"08001\",60,2,4,Casa");
}

#[test]
fn el_alta_de_una_vivienda_nueva_la_pone_al_final() {
    let mut dao = TipoViviendaDAO::new(archivo_de_una()).unwrap();
    dao.add(chile());
    assert_eq!(
        lineas(&dao),
        vec![
            "\"1\",\"San Isidro\",4,\"1C\",\"28350\",80,1,2,Apartamento",
            "\"2\",\"Chile\",40,\"\",\"28350\",100,3,3,Chalet",
        ]
    );
}

#[test]
fn la_modificacion_de_una_vivienda_ausente_no_cambia_nada() {
    let mut dao = TipoViviendaDAO::new(archivo_de_una()).unwrap();
    let antes = lineas(&dao);
    dao.update(chile());
    assert_eq!(lineas(&dao), antes);
    assert!(!dao.existe(&String::from("2")));
}

#[test]
fn la_modificacion_de_una_vivienda_presente_cambia_todos_sus_campos() {
    let mut dao = TipoViviendaDAO::new(archivo_de_una()).unwrap();
    dao.add(chile());
    let mut nueva = otra("1", "Nueva");
    nueva.numero = -3;
    dao.update(nueva);
    assert_eq!(
        lineas(&dao),
        vec![
            "\"1\",\"Nueva\",-3,\"B\",\"08001\",60,2,4,Casa",
            "\"2\",\"Chile\",40,\"\",\"28350\",100,3,3,Chalet",
        ]
    );
}

#[test]
fn la_baja_de_una_vivienda_ausente_no_devuelve_nada_ni_cambia_nada() {
    let mut dao = TipoViviendaDAO::new(archivo_de_una()).unwrap();
    let antes = lineas(&dao);
    assert!(dao.remove(&String::from("2")).is_none());
    assert_eq!(lineas(&dao), antes);
}

#[test]
fn la_baja_devuelve_la_vivienda_que_quita() {
    let mut dao = TipoViviendaDAO::new(archivo_de_una()).unwrap();
    dao.add(chile());
    dao.add(otra("3", "x"));
    let quitada = dao.remove(&String::from("2")).unwrap();
    assert!(quitada.igual(&chile()));
    assert_eq!(
        lineas(&dao),
        vec![
            "\"1\",\"San Isidro\",4,\"1C\",\"28350\",80,1,2,Apartamento",
            "\"3\",\"x\",7,\"B\",\"08001\",60,2,4,Casa",
        ]
    );
}

#[test]
fn dos_bajas_seguidas_son_como_una() {
    let mut dao = TipoViviendaDAO::new(archivo_de_una()).unwrap();
    dao.add(chile());
    assert!(dao.remove(&String::from("1")).is_some());
    let tras_una = lineas(&dao);
    assert!(dao.remove(&String::from("1")).is_none());
    assert_eq!(lineas(&dao), tras_una);
    assert_eq!(tras_una, vec!["\"2\",\"Chile\",40,\"\",\"28350\",100,3,3,Chalet"]);
}

#[test]
fn guardar_el_listado_y_recargar_deja_el_mismo_listado() {
    let mut dao = TipoViviendaDAO::new(archivo_de_una()).unwrap();
    dao.add(chile());
    dao.add(otra("con, coma", "con \"comillas\"\ny salto"));
    dao.update(otra("1", "Otra"));
    let antes = lineas(&dao);
    let listado = dao.asVector();
    assert_eq!(dao.save_and_refresh(&listado), Ok(()));
    assert_eq!(lineas(&dao), antes);
}

#[test]
fn el_registro_de_un_archivo_de_una_vivienda() {
    let mut dao = TipoViviendaDAO::new(archivo_de_una()).unwrap();
    let datos = dao.asVector();
    assert_eq!(datos.len(), 1);
    assert!(datos[0].igual(&san_isidro()));

    dao.remove(&String::from("1"));
    assert_eq!(dao.asVector().len(), 0);

    assert_eq!(dao.save_and_refresh(&Vec::new()), Ok(()));
    assert_eq!(dao.asVector().len(), 0);
    assert_eq!(dao.archivo(), &Vec::<u8>::new());
}

#[test]
fn un_registro_nuevo_sobre_el_archivo_guardado_tiene_las_mismas_viviendas() {
    let mut dao = TipoViviendaDAO::new(archivo_de_una()).unwrap();
    dao.add(chile());
    let listado = dao.asVector();
    assert_eq!(listado.len(), 2);
    assert!(listado[0].igual(&san_isidro()));
    assert!(listado[1].igual(&chile()));
    assert_eq!(dao.save_and_refresh(&listado), Ok(()));

    let nuevo = TipoViviendaDAO::new(dao.archivo().clone()).unwrap();
    let datos = nuevo.asVector();
    assert_eq!(datos.len(), 2);
    assert!(datos[0].igual(&san_isidro()));
    assert!(datos[1].igual(&chile()));
}

#[test]
fn una_clase_desconocida_impide_construir_el_registro() {
    let texto = format!("{}{}", CABECERA, "\"1\",\"San Isidro\",4,\"1C\",\"28350\",80,1,2,Adosado\n");
    assert_eq!(TipoViviendaDAO::new(texto.into_bytes()).err(), Some(ErrorCarga::Tipo(1)));
    let texto = format!("{}{}", CABECERA, "\"1\",\"San Isidro\",4,\"1C\",\"28350\",80,1,2,\n");
    assert_eq!(TipoViviendaDAO::new(texto.into_bytes()).err(), Some(ErrorCarga::Tipo(1)));
}
