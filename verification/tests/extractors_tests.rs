use std::io::Write;

use btmeister::extractors::{
    Format, TarBz2Extractor, TarExtractor, TarGzExtractor, TarXzExtractor, TarZstdExtractor,
    ZipExtractor,
};

fn make_testdata() -> (tempfile::TempDir, std::path::PathBuf) {
    let root = tempfile::tempdir().unwrap();
    let testdata = tempfile::Builder::new()
        .prefix("testdata")
        .rand_bytes(0)
        .tempdir_in(root.path())
        .unwrap()
        .keep();
    (root, testdata)
}

fn append(b: &mut tar::Builder<Vec<u8>>, name: &str, data: &[u8]) {
    let mut h = tar::Header::new_gnu();
    h.set_size(data.len() as u64);
    h.set_mode(0o644);
    h.set_cksum();
    b.append_data(&mut h, name, data).unwrap();
}

fn hello_tar_bytes() -> Vec<u8> {
    let mut b = tar::Builder::new(Vec::new());
    append(&mut b, "hello/Cargo.toml", b"[package]\nname = \"hello\"\n");
    append(&mut b, "hello/src/main.rs", b"fn main() {}\n");
    b.into_inner().unwrap()
}

fn write_bytes(dir: &std::path::Path, name: &str, bytes: &[u8]) -> String {
    let target = dir.join(name);
    let mut f = tempfile::NamedTempFile::new_in(dir).unwrap();
    f.write_all(bytes).unwrap();
    f.persist(&target).unwrap();
    target.display().to_string()
}

#[test]
fn test_list_tar_file() {
    let (_root, testdata) = make_testdata();
    let target = write_bytes(&testdata, "hello.tar", &hello_tar_bytes());
    let extractor = TarExtractor {};
    match extractor.list_entries(&target) {
        Ok(r) => {
            println!("{:?}", r);
            assert_eq!(r.len(), 2);
            assert_eq!(r.get(0), Some("hello/Cargo.toml".to_string()).as_ref());
            assert_eq!(r.get(1), Some("hello/src/main.rs".to_string()).as_ref());
        }
        Err(_) => assert!(false),
    }
}

#[test]
fn test_list_tarbz2_file() {
    let (_root, testdata) = make_testdata();
    let mut enc = bzip2::write::BzEncoder::new(Vec::new(), bzip2::Compression::new(6));
    enc.write_all(&hello_tar_bytes()).unwrap();
    let target = write_bytes(&testdata, "hello.tar.bz2", &enc.finish().unwrap());
    let extractor = TarBz2Extractor {};
    match extractor.list_entries(&target) {
        Ok(r) => {
            assert_eq!(r.len(), 2);
            assert_eq!(r.get(0), Some("hello/Cargo.toml".to_string()).as_ref());
            assert_eq!(r.get(1), Some("hello/src/main.rs".to_string()).as_ref());
        }
        Err(_) => assert!(false),
    }
}

#[test]
fn test_list_targz_file() {
    let (_root, testdata) = make_testdata();
    let mut enc = flate2::write::GzEncoder::new(Vec::new(), flate2::Compression::default());
    enc.write_all(&hello_tar_bytes()).unwrap();
    let target = write_bytes(&testdata, "hello.tar.gz", &enc.finish().unwrap());
    let extractor = TarGzExtractor {};
    match extractor.list_entries(&target) {
        Ok(r) => {
            assert_eq!(r.len(), 2);
            assert_eq!(r.get(0), Some("hello/Cargo.toml".to_string()).as_ref());
            assert_eq!(r.get(1), Some("hello/src/main.rs".to_string()).as_ref());
        }
        Err(_) => assert!(false),
    }
}

#[test]
fn test_list_tarxz_file() {
    let (_root, testdata) = make_testdata();
    let mut enc = xz2::write::XzEncoder::new(Vec::new(), 6);
    enc.write_all(&hello_tar_bytes()).unwrap();
    let target = write_bytes(&testdata, "hello.tar.xz", &enc.finish().unwrap());
    let extractor = TarXzExtractor {};
    match extractor.list_entries(&target) {
        Ok(r) => {
            assert_eq!(r.len(), 2);
            assert_eq!(r.get(0), Some("hello/Cargo.toml".to_string()).as_ref());
            assert_eq!(r.get(1), Some("hello/src/main.rs".to_string()).as_ref());
        }
        Err(_) => assert!(false),
    }
}

#[test]
fn test_list_tarzstd_file() {
    let (_root, testdata) = make_testdata();
    let bytes = hello_tar_bytes();
    let enc = zstd::encode_all(&bytes[..], 0).unwrap();
    let target = write_bytes(&testdata, "hello.tar.zst", &enc);
    let extractor = TarZstdExtractor {};
    match extractor.list_entries(&target) {
        Ok(r) => {
            assert_eq!(r.len(), 2);
            assert_eq!(r.get(0), Some("hello/Cargo.toml".to_string()).as_ref());
            assert_eq!(r.get(1), Some("hello/src/main.rs".to_string()).as_ref());
        }
        Err(_) => assert!(false),
    }
}

#[test]
fn tar_test_format() {
    let e1 = TarExtractor {};
    assert_eq!(e1.format(), Format::Tar);

    let e2 = TarGzExtractor {};
    assert_eq!(e2.format(), Format::TarGz);

    let e3 = TarBz2Extractor {};
    assert_eq!(e3.format(), Format::TarBz2);

    let e4 = TarXzExtractor {};
    assert_eq!(e4.format(), Format::TarXz);

    let e5 = TarZstdExtractor {};
    assert_eq!(e5.format(), Format::TarZstd);
}

fn fibonacci_zip_bytes() -> Vec<u8> {
    let names = [
        "fibonacci/HELP.md",
        "fibonacci/README.md",
        "fibonacci/gradle/wrapper/gradle-wrapper.jar",
        "fibonacci/gradle/wrapper/gradle-wrapper.properties",
        "fibonacci/gradlew",
        "fibonacci/gradlew.bat",
        "fibonacci/.gitignore",
        "fibonacci/build.gradle",
        "fibonacci/settings.gradle",
        "fibonacci/src/main/java/Fibonacci.java",
        "fibonacci/src/main/java/Main.java",
        "fibonacci/src/test/java/FibonacciTest.java",
        "fibonacci/build/tmp/compileJava/source-classes-mapping.txt",
        "fibonacci/build/classes/java/main/Fibonacci.class",
        "fibonacci/build/classes/java/main/Main.class",
        "fibonacci/build/libs/fibonacci.jar",
    ];
    let mut zw = zip::ZipWriter::new(std::io::Cursor::new(Vec::new()));
    let opts = zip::write::SimpleFileOptions::default();
    for name in names.iter() {
        zw.start_file(*name, opts).unwrap();
        zw.write_all(b"x").unwrap();
    }
    zw.finish().unwrap().into_inner()
}

#[test]
fn test_list_archives() {
    let (_root, testdata) = make_testdata();
    let target = write_bytes(&testdata, "fibonacci.zip", &fibonacci_zip_bytes());
    let extractor = ZipExtractor {};
    match extractor.list_entries(&target) {
        Ok(r) => {
            assert_eq!(r.len(), 16);
            assert_eq!(r.get(6), Some("fibonacci/.gitignore".to_string()).as_ref());
            assert_eq!(
                r.get(7),
                Some("fibonacci/build.gradle".to_string()).as_ref()
            );
        }
        Err(_) => assert!(false),
    }
}

#[test]
fn zip_test_format() {
    let e = ZipExtractor {};
    assert_eq!(e.format(), Format::Zip);
}

#[test]
fn test_is_supported_archive_format() {
    assert!(btmeister::is_supported_archive_format("a/b/hello.tar"));
    assert!(btmeister::is_supported_archive_format("HELLO.TAR.GZ"));
    assert!(btmeister::is_supported_archive_format("x.tgz"));
    assert!(btmeister::is_supported_archive_format("x.tbz2"));
    assert!(btmeister::is_supported_archive_format("x.txz"));
    assert!(btmeister::is_supported_archive_format("x.tzst"));
    assert!(btmeister::is_supported_archive_format("lib.jar"));
    assert!(btmeister::is_supported_archive_format("app.war"));
    assert!(btmeister::is_supported_archive_format("app.ear"));
    assert!(!btmeister::is_supported_archive_format("hello.txt"));
    assert!(!btmeister::is_supported_archive_format("tarball"));
    assert!(!btmeister::is_supported_archive_format("x.tar.lz4"));
}

#[test]
fn test_list_entries_unsupported() {
    let r = btmeister::extractors::list_entries("nothing.bin");
    assert!(r.is_err());
    if let Err(e) = r {
        assert!(matches!(
            e,
            btmeister::MeisterError::UnsupportedArchiveFormat(_)
        ));
    }
}
