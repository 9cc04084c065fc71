use glob::Pattern;
use rusttesserast::constanst::TesseractDefaultConstants;
use rusttesserast::engine::EngineReply;
use rusttesserast::errors::TesseractError;
use rusttesserast::tess_lib::TesseractApi;

const WORKING_DIR: &str = "/workspaces/rusttesserast";

/// The bytes an engine would hand back for a text.
fn text(s: &str) -> EngineReply {
    EngineReply::Text(s.as_bytes().to_vec())
}

/// A handle whose engine came up.
fn started(datapath: &str, lang: &str) -> TesseractApi {
    let mut api = TesseractApi::new(None, Some(datapath), Some(lang)).unwrap();
    api.confirm_init(true).unwrap();
    api
}

#[test]
fn test_get_dpi_attr() -> Result<(), TesseractError> {
    let cube = TesseractApi::new(
        None,
        Some(String::from("/usr/local/share/tessdata").as_str()),
        Some(String::from("rus").as_str()),
    )?;
    let dps_attr = cube.get_attr("dpi");
    assert_eq!(
        dps_attr.unwrap_left().unwrap(),
        &TesseractDefaultConstants::DEFAULT_DPI
    );
    Ok(())
}

#[test]
fn test_get_psm_attr() -> Result<(), TesseractError> {
    let cube = TesseractApi::new(
        None,
        Some(String::from("/usr/local/share/tessdata").as_str()),
        Some(String::from("rus").as_str()),
    )?;
    let psm_attr = cube.get_attr("psm");
    assert_eq!(
        psm_attr.unwrap_right().unwrap(),
        &TesseractDefaultConstants::DEFAULT_PSM
    );
    Ok(())
}

#[test]
fn test_get_oem_attr() -> Result<(), TesseractError> {
    let cube = TesseractApi::new(
        None,
        Some(String::from("/usr/local/share/tessdata").as_str()),
        Some(String::from("rus").as_str()),
    )?;
    let oem_attr = cube.get_attr("oem");
    assert_eq!(
        oem_attr.unwrap_right().unwrap(),
        &TesseractDefaultConstants::DEFAULT_OEM
    );
    Ok(())
}

#[test]
fn test_get_timeout_attr() -> Result<(), TesseractError> {
    let cube = TesseractApi::new(
        None,
        Some(String::from("/usr/local/share/tessdata").as_str()),
        Some(String::from("rus").as_str()),
    )?;
    let oem_attr = cube.get_attr("timeout");
    assert_eq!(
        oem_attr.unwrap_left().unwrap(),
        &TesseractDefaultConstants::DEFAULT_TIMEOUT
    );
    Ok(())
}

#[test]
fn test_error_attr() -> Result<(), TesseractError> {
    let cube = TesseractApi::new(
        None,
        Some(String::from("/usr/local/share/tessdata").as_str()),
        Some(String::from("rus").as_str()),
    )?;
    let error_atr = cube.get_attr("None_exist_attrt");
    assert_eq!(
        error_atr.factor_err(),
        Err(format!(
            "invalid field name to get '{}'",
            "None_exist_attrt"
        ))
    );
    Ok(())
}

#[test]
fn test_new_method_error() -> Result<(), TesseractError> {
    // No engine finds its data under this path: its answer is a refusal.
    let mut cube = TesseractApi::new(
        None,
        Some(String::from("/usr/local/shares/tessdatas").as_str()),
        Some(String::from("rust").as_str()),
    )?;
    let cube = cube.confirm_init(false);
    let expected: Result<(), TesseractError> = Err(TesseractError::TesseractInitError);
    assert_eq!(cube.unwrap_err(), expected.unwrap_err());
    Ok(())
}

#[test]
fn test_hocr() -> Result<(), TesseractError> {
    let mut cube = started("/usr/local/share/tessdata", "eng");
    let reply = text("  <div class='ocr_page' id='page_1' title='image \"\"; bbox 0 0 640 480'>\n  </div>\n");
    let result = cube.image_to_hocr(String::from("tests/test_img.png").as_str(), &reply);
    assert!(result?.contains(" <div class='ocr_page'"));
    Ok(())
}

#[test]
fn test_image_to_string() -> Result<(), TesseractError> {
    let mut cube = started("/usr/local/share/tessdata", "eng");
    let reply = text("Hello World!\n");
    let result = cube.image_to_string(String::from("tests/test_img.png").as_str(), &reply);
    assert!(result?.contains("World!"));
    Ok(())
}

#[test]
fn test_image_to_string_err() {
    let mut cube = started("/usr/local/share/tessdata", "eng");
    let result = cube.image_to_string(
        String::from("tests/test_imgk.png").as_str(),
        &EngineReply::Unreadable,
    );
    assert_eq!(result, Err(TesseractError::NoSuchFileException));
    assert_eq!(cube.image, None);
}

#[test]
fn test_image_to_tsv() -> Result<(), TesseractError> {
    let mut cube = started("/usr/local/share/tessdata", "eng");
    let table = "1\t1\t0\t0\t0\t0\t0\t0\t640\t480\t-1\t\n5\t1\t1\t1\t1\t1\t36\t92\t60\t24\t95.0\tHello\n";
    let result = cube.image_to_tsv(String::from("tests/test_img.png").as_str(), &text(table))?;
    assert_eq!(result, table);
    Ok(())
}

#[test]
fn test_recognize_doc() -> Result<(), TesseractError> {
    let mut tesseract_base = started("/usr/local/share/tessdata", "eng");
    let image_array = vec![(
        "tests/test_img.png",
        text("5\t1\t1\t1\t1\t1\t36\t92\t60\t24\t95.0\tHello\n"),
    )];
    let done = tesseract_base.recognize_doc(
        None,
        None,
        image_array,
        "tsv",
        None,
        WORKING_DIR,
        true,
    )?;
    assert_eq!(done.texts.len(), 1);
    assert_eq!(done.saved, None);
    Ok(())
}

#[test]
fn test_recognize_doc_panic() {
    let mut tesseract_base = started("/usr/local/share/tessdata", "eng");
    let image_array = vec![("tests/test_img.png", text("Hello World!\n"))];
    let before = tesseract_base.clone();
    let done = tesseract_base.recognize_doc(
        None,
        None,
        image_array,
        "tsvs",
        None,
        WORKING_DIR,
        true,
    );
    assert_eq!(done, Err(TesseractError::UnsupportedFormat));
    assert_eq!(tesseract_base, before);
}

#[test]
fn test_save_doc() {
    let mut tesseract_base = started("/usr/local/share/tessdata", "eng");
    let doc_vec = vec![String::from("/usr/local/share/tessdata")];
    let saved = tesseract_base
        .save_doc(
            Some(String::from("/usr/local/share/tessdata").as_str()),
            None,
            &doc_vec,
            WORKING_DIR,
            true,
        )
        .unwrap();
    let files_ = Pattern::new("/usr/local/share/tessdata/data.txt").unwrap();
    assert!(files_.matches(&saved.path()));
    assert_eq!(saved.content, "/usr/local/share/tessdata");
}

#[test]
fn test_recognize_doc_save_doc() {
    let mut tesseract_base = started("/usr/local/share/tessdata", "eng");
    let image_array = vec![("tests/test_img.png", text("Hello World!\n"))];
    let res_path = WORKING_DIR.to_owned() + "/tests/";
    let res = tesseract_base
        .recognize_doc(
            Some(res_path.as_str()),
            Some(String::from("data_custom.txt").as_str()),
            image_array,
            "txt",
            Some(true),
            WORKING_DIR,
            true,
        )
        .unwrap();
    assert_eq!(res.texts.len(), 1);
    println!("{:?}", res.texts);
    let saved = res.saved.unwrap().unwrap();
    let files_ = Pattern::new("/workspaces/rusttesserast/tests/*data_custom.txt").unwrap();
    assert!(files_.matches(&saved.path()));
    assert_eq!(saved.path(), "/workspaces/rusttesserast/tests//data_custom.txt");
    assert_eq!(saved.content, "Hello World!\n");
}

#[test]
fn test_save_doc_custom_name() {
    let mut tesseract_base = started("/usr/local/share/tessdata", "eng");
    let doc_vec = vec![String::from("/usr/local/share/tessdata")];
    let saved = tesseract_base
        .save_doc(
            Some(String::from("/usr/local/share/tessdata").as_str()),
            Some(String::from("data_custom.txt").as_str()),
            &doc_vec,
            WORKING_DIR,
            true,
        )
        .unwrap();
    let files_ = Pattern::new("/usr/local/share/tessdata/data_custom.txt").unwrap();
    assert!(files_.matches(&saved.path()));
}

#[test]
fn test_save_doc_panic_path() {
    let mut tesseract_base = started("/usr/local/share/tessdata", "eng");
    let doc_vec = vec![String::from("/usr/local/share/tessdata")];
    let saved = tesseract_base.save_doc(
        Some(String::from("/usr/local/share/tessdata_fake").as_str()),
        Some(String::from("data_custom.txt").as_str()),
        &doc_vec,
        WORKING_DIR,
        false,
    );
    assert_eq!(saved, Err(TesseractError::DestinationNotFound));
}
