use compax::entry::{Entry, EntryKind, DIRECTORY_MODE, FILE_MODE};
use compax::error::ArchiveError;
use compax::extension::{folds_to, to_lower};
use compax::pack::CompressionFormat;
use compax::path::{extension, file_name, has_dot, relative};
use compax::resolve::{resolve_format, resolve_output, ArchiveRequest};
use compax::unpack::{decompress_any, DeCompressionFormat, Packed};

#[test]
fn every_extension_of_the_table_selects_its_format() {
    assert_eq!(CompressionFormat::from_extension("xz"), Some(CompressionFormat::Xz));
    assert_eq!(CompressionFormat::from_extension("txz"), Some(CompressionFormat::Xz));
    assert_eq!(CompressionFormat::from_extension("gz"), Some(CompressionFormat::Gz));
    assert_eq!(CompressionFormat::from_extension("tgz"), Some(CompressionFormat::Gz));
    assert_eq!(CompressionFormat::from_extension("zst"), Some(CompressionFormat::Zst));
    assert_eq!(CompressionFormat::from_extension("tzst"), Some(CompressionFormat::Zst));
    assert_eq!(CompressionFormat::from_extension("bz2"), Some(CompressionFormat::Bz2));
    assert_eq!(CompressionFormat::from_extension("tbz2"), Some(CompressionFormat::Bz2));
    assert_eq!(CompressionFormat::from_extension("7z"), Some(CompressionFormat::SevenZ));
}

#[test]
fn extensions_are_matched_without_regard_to_case() {
    for ext in ["xz", "txz", "gz", "tgz", "zst", "tzst", "bz2", "tbz2", "7z"] {
        let upper = ext.to_uppercase();
        assert_eq!(
            CompressionFormat::from_extension(ext),
            CompressionFormat::from_extension(&upper)
        );
        assert!(CompressionFormat::from_extension(&upper).is_some());
    }
    assert_eq!(CompressionFormat::from_extension("TgZ"), Some(CompressionFormat::Gz));
    assert_eq!(CompressionFormat::from_extension("Bz2"), Some(CompressionFormat::Bz2));
}

#[test]
fn unlisted_extensions_select_nothing() {
    for ext in ["", "zip", "tar", "x", "xzz", "7zz", "gzip", "bz", ".xz", "xz ", "t", "\u{212a}z"] {
        assert_eq!(CompressionFormat::from_extension(ext), None);
        assert_eq!(DeCompressionFormat::from_extension(ext), None);
    }
}

#[test]
fn resolving_twice_gives_the_same_format() {
    let first = CompressionFormat::from_extension("tzst");
    let second = CompressionFormat::from_extension("tzst");
    assert_eq!(first, second);
    assert_eq!(first, Some(CompressionFormat::Zst));
}

#[test]
fn reading_and_writing_share_one_table() {
    assert_eq!(DeCompressionFormat::from_extension("XZ"), Some(DeCompressionFormat::Xz));
    assert_eq!(DeCompressionFormat::from_extension("tgz"), Some(DeCompressionFormat::Gz));
    assert_eq!(DeCompressionFormat::from_extension("zst"), Some(DeCompressionFormat::Zst));
    assert_eq!(DeCompressionFormat::from_extension("tbz2"), Some(DeCompressionFormat::Bz2));
    assert_eq!(DeCompressionFormat::from_extension("7Z"), Some(DeCompressionFormat::SevenZ));
}

#[test]
fn default_extensions() {
    assert_eq!(CompressionFormat::Xz.default_extension(), "tar.xz");
    assert_eq!(CompressionFormat::Gz.default_extension(), "tar.gz");
    assert_eq!(CompressionFormat::Zst.default_extension(), "tar.zst");
    assert_eq!(CompressionFormat::Bz2.default_extension(), "tar.bz2");
    assert_eq!(CompressionFormat::SevenZ.default_extension(), "7z");
}

#[test]
fn resolve_format_reports_the_offending_extension() {
    assert_eq!(resolve_format("GZ"), Ok(CompressionFormat::Gz));
    assert_eq!(resolve_format("Zip"), Err(ArchiveError::UnsupportedFormat("Zip".to_string())));
}

#[test]
fn bare_token_names_archive_after_input() {
    assert_eq!(
        resolve_output("myproj/", "zst"),
        Ok(("myproj.tar.zst".to_string(), CompressionFormat::Zst))
    );
    assert_eq!(
        resolve_output("notes/", "gz"),
        Ok(("notes.tar.gz".to_string(), CompressionFormat::Gz))
    );
    assert_eq!(
        resolve_output("/home/me/photos", "TXZ"),
        Ok(("photos.tar.xz".to_string(), CompressionFormat::Xz))
    );
    assert_eq!(
        resolve_output("a/b/.", "bz2"),
        Ok(("b.tar.bz2".to_string(), CompressionFormat::Bz2))
    );
    assert_eq!(resolve_output("docs", "7z"), Ok(("docs.7z".to_string(), CompressionFormat::SevenZ)));
}

#[test]
fn every_token_gives_a_name_with_the_default_extension() {
    let tokens = [
        ("xz", CompressionFormat::Xz),
        ("txz", CompressionFormat::Xz),
        ("gz", CompressionFormat::Gz),
        ("tgz", CompressionFormat::Gz),
        ("zst", CompressionFormat::Zst),
        ("tzst", CompressionFormat::Zst),
        ("bz2", CompressionFormat::Bz2),
        ("tbz2", CompressionFormat::Bz2),
        ("7z", CompressionFormat::SevenZ),
    ];
    for (token, format) in tokens {
        let (name, found) = resolve_output("work/tree/", token).unwrap();
        assert_eq!(found, format);
        assert!(name.starts_with("tree"));
        assert!(name.ends_with(&format!(".{}", format.default_extension())));
        assert_eq!(name, format!("tree.{}", format.default_extension()));
    }
}

#[test]
fn input_without_a_name_falls_back_to_archive() {
    for input in ["", "/", ".", "..", "a/..", "./", "//"] {
        assert_eq!(
            resolve_output(input, "gz"),
            Ok(("archive.tar.gz".to_string(), CompressionFormat::Gz))
        );
    }
}

#[test]
fn file_name_with_extension_is_kept() {
    assert_eq!(resolve_output("notes/", "tar.xz"), Ok(("tar.xz".to_string(), CompressionFormat::Xz)));
    assert_eq!(
        resolve_output("notes/", "out/backup.TGZ"),
        Ok(("out/backup.TGZ".to_string(), CompressionFormat::Gz))
    );
    assert_eq!(
        resolve_output("notes/", "output.zst.zst"),
        Ok(("output.zst.zst".to_string(), CompressionFormat::Zst))
    );
}

#[test]
fn unsupported_and_missing_extensions() {
    assert_eq!(
        resolve_output("notes/", "notes.zip"),
        Err(ArchiveError::UnsupportedFormat("zip".to_string()))
    );
    assert_eq!(
        resolve_output("notes/", "notes."),
        Err(ArchiveError::UnsupportedFormat("".to_string()))
    );
    assert_eq!(resolve_output("notes/", "backup"), Err(ArchiveError::MissingExtension));
    assert_eq!(resolve_output("notes/", ""), Err(ArchiveError::MissingExtension));
    assert_eq!(resolve_output("notes/", ".xz"), Err(ArchiveError::MissingExtension));
    assert_eq!(resolve_output("notes/", "my.dir/backup"), Err(ArchiveError::MissingExtension));
    assert_eq!(resolve_output("notes/", ".."), Err(ArchiveError::MissingExtension));
}

#[test]
fn file_names() {
    assert_eq!(file_name("a/b/c.txt"), Some("c.txt"));
    assert_eq!(file_name("notes/"), Some("notes"));
    assert_eq!(file_name("notes//"), Some("notes"));
    assert_eq!(file_name("notes/."), Some("notes"));
    assert_eq!(file_name("/usr/bin/"), Some("bin"));
    assert_eq!(file_name("tmp/foo.txt"), Some("foo.txt"));
    assert_eq!(file_name("foo.txt/."), Some("foo.txt"));
    assert_eq!(file_name("foo.txt/.//"), Some("foo.txt"));
    assert_eq!(file_name("foo.txt/.."), None);
    assert_eq!(file_name("/"), None);
    assert_eq!(file_name(""), None);
    assert_eq!(file_name("."), None);
    assert_eq!(file_name(".."), None);
    assert_eq!(file_name("..."), Some("..."));
    assert_eq!(file_name(".hidden"), Some(".hidden"));
}

#[test]
fn file_names_agree_with_std() {
    let paths = [
        "", "/", ".", "..", "a", "a/", "a//", "a/.", "a/..", "/a", "./a", "../a", "a/b", "a/./b",
        "a/b/./", "a/b/../", ".a", "a.", "a..b", "...", "a/.../", "//a//b//", "x/y.tar.gz",
    ];
    for p in paths {
        let std_name = std::path::Path::new(p).file_name().and_then(|n| n.to_str());
        assert_eq!(file_name(p), std_name, "file name of {:?}", p);
        let std_ext = std::path::Path::new(p).extension().and_then(|n| n.to_str());
        assert_eq!(extension(p), std_ext, "extension of {:?}", p);
    }
}

#[test]
fn extensions() {
    assert_eq!(extension("archive.tar.gz"), Some("gz"));
    assert_eq!(extension("dir.d/archive"), None);
    assert_eq!(extension(".bashrc"), None);
    assert_eq!(extension(".bashrc.bak"), Some("bak"));
    assert_eq!(extension("name."), Some(""));
    assert_eq!(extension("a/b.7z/"), Some("7z"));
    assert_eq!(extension(""), None);
    assert!(has_dot("a.b"));
    assert!(has_dot("."));
    assert!(!has_dot("abc/def"));
    assert!(!has_dot(""));
}

#[test]
fn places_below_the_output_directory() {
    assert_eq!(relative("a/b/c"), Some("a/b/c".to_string()));
    assert_eq!(relative("./a//b/./c/"), Some("a/b/c".to_string()));
    assert_eq!(relative("/etc/passwd"), Some("etc/passwd".to_string()));
    assert_eq!(relative("///x"), Some("x".to_string()));
    assert_eq!(relative("a/../b"), None);
    assert_eq!(relative("../b"), None);
    assert_eq!(relative(".."), None);
    assert_eq!(relative(""), None);
    assert_eq!(relative("."), None);
    assert_eq!(relative("/"), None);
    assert_eq!(relative("././/"), None);
    assert_eq!(relative("..."), Some("...".to_string()));
    assert_eq!(relative("a/..b/c.."), Some("a/..b/c..".to_string()));
    assert_eq!(relative("d\u{e9}j\u{e0}/vu"), Some("d\u{e9}j\u{e0}/vu".to_string()));
}

#[test]
fn a_place_is_its_own_place() {
    for p in ["a/b/c", "./a//b/./c/", "/etc/passwd", "x", "a/..b/c.."] {
        let once = relative(p).unwrap();
        assert_eq!(relative(&once), Some(once.clone()));
    }
}

#[test]
fn messages() {
    assert_eq!(
        ArchiveError::UnsupportedFormat("zip".to_string()).message(),
        "unsupported compression format: zip"
    );
    assert_eq!(
        ArchiveError::MissingExtension.message(),
        "output must have an extension or name a format"
    );
    assert_eq!(ArchiveError::Io("disk full".to_string()).message(), "i/o error: disk full");
    assert_eq!(
        ArchiveError::CorruptArchive("bad magic".to_string()).message(),
        "corrupt archive: bad magic"
    );
}

#[test]
fn requests() {
    let request = ArchiveRequest::resolve("work/notes/", "tbz2").unwrap();
    assert_eq!(request.input, "work/notes/");
    assert_eq!(request.output, "notes.tar.bz2");
    assert_eq!(request.format, CompressionFormat::Bz2);
    assert_eq!(
        ArchiveRequest::resolve("work/notes/", "notes.rar"),
        Err(ArchiveError::UnsupportedFormat("rar".to_string()))
    );
    assert_eq!(
        ArchiveRequest::resolve("work/notes/", "rar"),
        Err(ArchiveError::MissingExtension)
    );
    let tree = vec![Entry::file("a.txt", b"hi".to_vec())];
    let archive = request.compress(&tree).unwrap();
    assert_eq!(&archive[..4], b"BZh9");
    assert_eq!(decompress_any("notes.tar.bz2", &Packed::Stream(archive)).unwrap(), tree);
}

#[test]
fn a_resolved_name_selects_the_same_format_for_reading() {
    let pairs = [
        (CompressionFormat::Xz, DeCompressionFormat::Xz),
        (CompressionFormat::Gz, DeCompressionFormat::Gz),
        (CompressionFormat::Zst, DeCompressionFormat::Zst),
        (CompressionFormat::Bz2, DeCompressionFormat::Bz2),
        (CompressionFormat::SevenZ, DeCompressionFormat::SevenZ),
    ];
    let outputs = [
        "xz", "TXZ", "gz", "tgz", "zst", "tzst", "bz2", "tbz2", "7z", "a.b.xz", "x/y.tgz",
        "w.ZST", "q.tar.bz2", "p.7z",
    ];
    for input in ["proj", "a/b/", "", "..", "dotted.dir/"] {
        for output in outputs {
            let (name, format) = resolve_output(input, output).unwrap();
            let ext = extension(&name).unwrap();
            let reader = DeCompressionFormat::from_extension(ext).unwrap();
            assert!(pairs.contains(&(format, reader)), "{} {}", input, output);
        }
    }
}

#[test]
fn folding() {
    assert_eq!(to_lower('A'), 'a');
    assert_eq!(to_lower('Z'), 'z');
    assert_eq!(to_lower('m'), 'm');
    assert_eq!(to_lower('@'), '@');
    assert_eq!(to_lower('['), '[');
    assert_eq!(to_lower('7'), '7');
    assert_eq!(to_lower('\u{c9}'), '\u{c9}');
    assert!(folds_to("TaR", "tar"));
    assert!(folds_to("", ""));
    assert!(!folds_to("tar", "TAR"));
    assert!(!folds_to("tar", "ta"));
    assert!(!folds_to("ta", "tar"));
}

#[test]
fn kinds() {
    assert_eq!(EntryKind::File.default_mode(), FILE_MODE);
    assert_eq!(EntryKind::Symlink.default_mode(), FILE_MODE);
    assert_eq!(EntryKind::HardLink.default_mode(), FILE_MODE);
    assert_eq!(EntryKind::Directory.default_mode(), DIRECTORY_MODE);
    assert_eq!(FILE_MODE, 0o644);
    assert_eq!(DIRECTORY_MODE, 0o755);
    assert!(EntryKind::Symlink.is_link());
    assert!(EntryKind::HardLink.is_link());
    assert!(!EntryKind::File.is_link());
    assert!(!EntryKind::Directory.is_link());
}
