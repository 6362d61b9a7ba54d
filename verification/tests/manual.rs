use rustmission::manual::{Manual, ManualError};

fn crc32(data: &[u8]) -> u32 {
    let mut crc: u32 = !0;
    for byte in data {
        crc ^= *byte as u32;
        for _ in 0..8 {
            crc = if crc & 1 == 1 { (crc >> 1) ^ 0xEDB8_8320 } else { crc >> 1 };
        }
    }
    !crc
}

/// A gzip stream that holds the data in one stored block.
fn gzip_stored(data: &[u8]) -> Vec<u8> {
    let mut out = vec![0x1f, 0x8b, 0x08, 0x00, 0, 0, 0, 0, 0x00, 0x03];
    let len = data.len() as u16;
    out.push(0x01);
    out.extend(len.to_le_bytes());
    out.extend((!len).to_le_bytes());
    out.extend(data);
    out.extend(crc32(data).to_le_bytes());
    out.extend((data.len() as u32).to_le_bytes());
    out
}

#[test]
fn a_compressed_page_is_read_as_text() {
    let text = ".Dd January 1, 2024\n.Dt LS 1\n";
    let raw = gzip_stored(text.as_bytes());
    assert_eq!(Manual::read_raw(&raw), Ok(text.to_string()));
}

#[test]
fn bytes_that_are_no_gzip_stream_are_refused() {
    assert_eq!(Manual::read_raw(b"plain text, long enough to pass"), Err(ManualError::Compression));
    assert_eq!(Manual::read_raw(b""), Err(ManualError::Compression));
    let mut damaged = gzip_stored(b"some manual page");
    let at = damaged.len() - 6;
    damaged[at] ^= 0xff;
    assert_eq!(Manual::read_raw(&damaged), Err(ManualError::Compression));
}

#[test]
fn compressed_bytes_that_are_no_text_are_refused() {
    let raw = gzip_stored(&[b'a', 0xff, 0xfe, b'b', b'c', b'd', b'e', b'f']);
    assert_eq!(Manual::read_raw(&raw), Err(ManualError::Encoding));
}

#[test]
fn the_date_is_what_follows_dd() {
    assert_eq!(
        Manual::read(".Dd January 1, 2024\n.Dt LS 1\n"),
        Some("January 1, 2024".to_string())
    );
    assert_eq!(Manual::read(".Dt LS 1\n.Dd $Mdocdate$"), Some("$Mdocdate$".to_string()));
    assert_eq!(Manual::read(".Dd \n"), Some("".to_string()));
    assert_eq!(Manual::read(".Ddx2024\r\nmore"), Some("2024".to_string()));
}

#[test]
fn the_last_date_wins() {
    assert_eq!(Manual::read(".Dd first\ntext\n.Dd second\ntext"), Some("second".to_string()));
    assert_eq!(Manual::read(".Dd first\n.Dd \n"), Some("".to_string()));
}

#[test]
fn a_page_without_a_date_has_none() {
    assert_eq!(Manual::read(""), None);
    assert_eq!(Manual::read("\n\n"), None);
    assert_eq!(Manual::read(".Dt LS 1\n .Dd indented\n"), None);
    assert_eq!(Manual::read(".dd lower"), None);
    assert_eq!(Manual::read(".D"), None);
}

#[test]
fn a_dd_line_without_a_readable_date_is_told_apart() {
    for page in ["", "text\n", ".Dd \n", ".Dd a\n.Dd b", ".Ddx\r\n", ".Dd ü", ".D\n.d\n"] {
        assert!(Manual::dates_are_readable(page), "{page:?}");
    }
    for page in [".Dd", ".Dd\n", "a\n.Dd\r\nb", ".Dd first\n.Dd\n", ".Ddü", "x\n.Ddß2024\n"] {
        assert!(!Manual::dates_are_readable(page), "{page:?}");
    }
}

#[test]
fn readable_pages_are_those_that_slicing_takes() {
    let pages = [".Dd", ".Dd\n", ".Dd a", ".Ddü", ".Dd ü", ".Ddxü\n.Dd", "", ".Dd\r\n", ".Dd \r\n"];
    for page in pages {
        let sliceable = page
            .lines()
            .filter(|line| line.starts_with(".Dd"))
            .all(|line| line.get(4..).is_some());
        assert_eq!(Manual::dates_are_readable(page), sliceable, "{page:?}");
    }
}

#[test]
fn the_date_agrees_with_a_scan_of_the_lines() {
    let pages = [
        ".Dd a\n.Dd b\n",
        "x\r\n.Dd c\r\n",
        ".Dd d\r",
        "\n.Dd e",
        ".Dd  two spaces\n\n",
        ".Dd ünïcödé\n",
    ];
    for page in pages {
        let mut date = None;
        for line in page.lines() {
            if line.starts_with(".Dd") {
                date = Some(line[4..].to_string());
            }
        }
        assert!(Manual::dates_are_readable(page));
        assert_eq!(Manual::read(page), date, "{page:?}");
    }
}

#[test]
fn the_category_directory() {
    assert_eq!(Manual::category_dir(8), "/usr/share/man/man8");
    assert_eq!(Manual::category_dir(0), "/usr/share/man/man0");
    assert_eq!(Manual::category_dir(255), "/usr/share/man/man255");
}
