use viviendas::entidad::TipoVivienda;
use viviendas::tabla::{csv_de_registros, mismos_registros, registros_de_csv, texto_para_guardar};
use viviendas::{ErrorCarga, Tipo};

const CABECERA: &str =
    "identificacion,calle,numero,piso,codigo_postal,metros_cuadrados,numero_aseos,numero_habitaciones,tipo\n";

fn vivienda(identificacion: &str, calle: &str, piso: &str, tipo: Tipo) -> TipoVivienda {
    TipoVivienda {
        identificacion: String::from(identificacion),
        calle: String::from(calle),
        numero: 4,
        piso: String::from(piso),
        codigo_postal: String::from("28350"),
        metros_cuadrados: 80,
        numero_aseos: 1,
        numero_habitaciones: 2,
        tipo,
    }
}

fn leer(texto: &str) -> Result<Vec<TipoVivienda>, ErrorCarga> {
    registros_de_csv(&texto.as_bytes().to_vec())
}

#[test]
fn lee_un_archivo_de_una_vivienda() {
    let texto = format!(
        "{}{}",
        CABECERA, "\"1\",\"San Isidro\",4,\"1C\",\"28350\",80,1,2,Apartamento\n"
    );
    let vs = leer(&texto).unwrap();
    assert_eq!(vs.len(), 1);
    assert!(vs[0].igual(&vivienda("1", "San Isidro", "1C", Tipo::Apartamento)));
}

#[test]
fn lee_campos_con_y_sin_comillas() {
    let texto = format!("{}{}", CABECERA, "1,San Isidro,\"4\",1C,28350,\"80\",1,2,\"Apartamento\"\n");
    let vs = leer(&texto).unwrap();
    assert_eq!(vs.len(), 1);
    assert!(vs[0].igual(&vivienda("1", "San Isidro", "1C", Tipo::Apartamento)));
}

#[test]
fn lee_un_archivo_sin_salto_de_linea_final() {
    let texto = format!("{}{}", CABECERA, "1,San Isidro,4,1C,28350,80,1,2,Apartamento");
    assert_eq!(leer(&texto).unwrap().len(), 1);
}

#[test]
fn un_archivo_vacio_no_tiene_viviendas() {
    assert_eq!(leer("").unwrap().len(), 0);
}

#[test]
fn un_archivo_con_solo_la_cabecera_no_tiene_viviendas() {
    assert_eq!(leer(CABECERA).unwrap().len(), 0);
}

#[test]
fn un_archivo_sin_cabecera_se_rechaza() {
    assert_eq!(
        leer("1,San Isidro,4,1C,28350,80,1,2,Apartamento\n").err(),
        Some(ErrorCarga::Cabecera)
    );
}

#[test]
fn un_archivo_con_la_cabecera_en_otro_orden_se_rechaza() {
    let texto =
        "calle,identificacion,numero,piso,codigo_postal,metros_cuadrados,numero_aseos,numero_habitaciones,tipo\n";
    assert_eq!(leer(texto).err(), Some(ErrorCarga::Cabecera));
}

#[test]
fn un_archivo_con_filas_desiguales_se_rechaza() {
    let texto = format!("{}{}", CABECERA, "1,San Isidro,4,1C,28350,80,1,2\n");
    assert_eq!(leer(&texto).err(), Some(ErrorCarga::Csv));
}

#[test]
fn un_archivo_que_no_es_texto_se_rechaza() {
    let mut datos = CABECERA.as_bytes().to_vec();
    datos.extend_from_slice(b"1,San Isidro,4,1C,28350,80,1,2,\xff\xfe\n");
    assert_eq!(registros_de_csv(&datos).err(), Some(ErrorCarga::Csv));
}

#[test]
fn una_clase_desconocida_en_el_archivo_se_rechaza() {
    let texto = format!(
        "{}{}{}",
        CABECERA,
        "1,San Isidro,4,1C,28350,80,1,2,Apartamento\n",
        "2,Chile,40,,28350,100,3,3,Palacio\n"
    );
    assert_eq!(leer(&texto).err(), Some(ErrorCarga::Tipo(2)));
}

#[test]
fn un_numero_mal_escrito_en_el_archivo_se_rechaza() {
    let texto = format!("{}{}", CABECERA, "1,San Isidro,cuatro,1C,28350,80,1,2,Apartamento\n");
    assert_eq!(leer(&texto).err(), Some(ErrorCarga::Numero(1)));
}

#[test]
fn el_texto_de_ninguna_vivienda_esta_vacio() {
    assert_eq!(csv_de_registros(&Vec::new()), Ok(Vec::new()));
    assert_eq!(texto_para_guardar(&Vec::new()), Ok(Vec::new()));
}

#[test]
fn el_texto_de_dos_viviendas() {
    let datos = vec![
        vivienda("1", "San Isidro", "1C", Tipo::Apartamento),
        vivienda("2", "Chile", "", Tipo::Chalet),
    ];
    let esperado = format!(
        "{}{}{}",
        CABECERA, "1,San Isidro,4,1C,28350,80,1,2,Apartamento\n", "2,Chile,4,,28350,80,1,2,Chalet\n"
    );
    assert_eq!(csv_de_registros(&datos), Ok(esperado.clone().into_bytes()));
    assert_eq!(texto_para_guardar(&datos), Ok(esperado.into_bytes()));
}

#[test]
fn los_campos_con_comas_comillas_y_saltos_van_entre_comillas() {
    let datos = vec![vivienda("a,b", "la \"Mayor\"", "1\n2", Tipo::Casa)];
    let esperado = format!(
        "{}{}",
        CABECERA, "\"a,b\",\"la \"\"Mayor\"\"\",4,\"1\n2\",28350,80,1,2,Casa\n"
    );
    assert_eq!(texto_para_guardar(&datos), Ok(esperado.into_bytes()));
}

#[test]
fn el_texto_guardado_se_lee_igual() {
    let datos = vec![
        vivienda("", "", "", Tipo::Casa),
        vivienda("a,b", "la \"Mayor\"", "1\n2", Tipo::Casa),
        vivienda(" con espacios ", "calle\r\ncon retorno", "ñandú", Tipo::Chalet),
        vivienda("#", "\"", ",", Tipo::Apartamento),
        vivienda("a,b", "repetida", "\t", Tipo::Apartamento),
    ];
    let texto = texto_para_guardar(&datos).unwrap();
    let leidos = registros_de_csv(&texto).unwrap();
    assert!(mismos_registros(&leidos, &datos));
}

#[test]
fn compara_listas_de_viviendas() {
    let a = vec![vivienda("1", "x", "", Tipo::Casa), vivienda("2", "y", "", Tipo::Casa)];
    let b = vec![vivienda("1", "x", "", Tipo::Casa), vivienda("2", "y", "", Tipo::Casa)];
    let c = vec![vivienda("2", "y", "", Tipo::Casa), vivienda("1", "x", "", Tipo::Casa)];
    let d = vec![vivienda("1", "x", "", Tipo::Casa)];
    let e = vec![vivienda("1", "x", "", Tipo::Casa), vivienda("2", "y", "", Tipo::Chalet)];
    assert!(mismos_registros(&a, &b));
    assert!(!mismos_registros(&a, &c));
    assert!(!mismos_registros(&a, &d));
    assert!(!mismos_registros(&d, &a));
    assert!(!mismos_registros(&a, &e));
    assert!(mismos_registros(&Vec::new(), &Vec::new()));
}

#[test]
fn cualquier_caracter_se_guarda_y_se_lee_igual() {
    let mut codigos: Vec<u32> = (0..=0x2ff).collect();
    codigos.extend_from_slice(&[0x2028, 0x2029, 0xfeff, 0xfffd, 0x1f3e0, 0x10ffff]);
    let mut datos = Vec::new();
    for codigo in codigos {
        let c = char::from_u32(codigo).unwrap();
        datos.push(vivienda(&c.to_string(), &format!("a{}b", c), &format!("{}{}", c, c), Tipo::Casa));
        datos.push(vivienda(&format!("{}x", c), &format!("{} ", c), &format!(" {}", c), Tipo::Chalet));
    }
    let texto = texto_para_guardar(&datos).unwrap();
    assert!(mismos_registros(&registros_de_csv(&texto).unwrap(), &datos));
}
