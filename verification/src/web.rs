//! Pieces of the web answers: content types, navigation links, file
//! listings, and checks on names coming from requests.
use vstd::prelude::*;
use crate::paths::{
    construct_directory_path, file_extension, find_cloud_folder, joined_path, path_extension, path_exists, path_has_prefix,
    path_join, path_starts_with,
};
use crate::cloud::{Cloud, folder_names, is_first_index, since_epoch, system_now};
use crate::text::{
    byte_len, concat_str, contains_seq, copy_str, decimal, split_by, split_on, str_contains, str_eq,
    to_lowercase, lowercase_of, trim, trim_str, starts_with, str_starts_with, u64_to_decimal, utf8_len,
    lex_less, lex_lt, lemma_lex_asymmetric, is_ws, lemma_trim_keeps_non_ws, lemma_lex_total, lemma_lex_transitive,
};

verus! {

/// The content type for a lower-case file extension.
pub open spec fn mime_for(e: Seq<char>) -> Seq<char> {
    if e == "jpg"@ || e == "jpeg"@ {
        "image/jpeg"@
    } else if e == "png"@ {
        "image/png"@
    } else if e == "gif"@ {
        "image/gif"@
    } else if e == "webp"@ {
        "image/webp"@
    } else if e == "svg"@ {
        "image/svg+xml"@
    } else if e == "bmp"@ {
        "image/bmp"@
    } else if e == "ico"@ {
        "image/x-icon"@
    } else if e == "txt"@ {
        "text/plain"@
    } else if e == "html"@ || e == "htm"@ {
        "text/html"@
    } else if e == "css"@ {
        "text/css"@
    } else if e == "js"@ {
        "application/javascript"@
    } else if e == "json"@ {
        "application/json"@
    } else if e == "xml"@ {
        "application/xml"@
    } else if e == "csv"@ {
        "text/csv"@
    } else if e == "md"@ || e == "markdown"@ {
        "text/markdown"@
    } else if e == "pdf"@ {
        "application/pdf"@
    } else if e == "doc"@ {
        "application/msword"@
    } else if e == "docx"@ {
        "application/vnd.openxmlformats-officedocument.wordprocessingml.document"@
    } else if e == "xls"@ {
        "application/vnd.ms-excel"@
    } else if e == "xlsx"@ {
        "application/vnd.openxmlformats-officedocument.spreadsheetml.sheet"@
    } else if e == "ppt"@ {
        "application/vnd.ms-powerpoint"@
    } else if e == "pptx"@ {
        "application/vnd.openxmlformats-officedocument.presentationml.presentation"@
    } else if e == "zip"@ {
        "application/zip"@
    } else if e == "rar"@ {
        "application/x-rar-compressed"@
    } else if e == "7z"@ {
        "application/x-7z-compressed"@
    } else if e == "tar"@ {
        "application/x-tar"@
    } else if e == "gz"@ {
        "application/gzip"@
    } else if e == "mp3"@ {
        "audio/mpeg"@
    } else if e == "wav"@ {
        "audio/wav"@
    } else if e == "ogg"@ {
        "audio/ogg"@
    } else if e == "flac"@ {
        "audio/flac"@
    } else if e == "mp4"@ {
        "video/mp4"@
    } else if e == "avi"@ {
        "video/x-msvideo"@
    } else if e == "mov"@ {
        "video/quicktime"@
    } else if e == "wmv"@ {
        "video/x-ms-wmv"@
    } else if e == "webm"@ {
        "video/webm"@
    } else if e == "rs"@ || e == "py"@ || e == "java"@ || e == "cpp"@ || e == "cc"@ || e == "cxx"@ || e == "c"@ || e == "h"@ || e == "hpp"@ || e == "cs"@ || e == "php"@ || e == "rb"@ || e == "go"@ || e == "swift"@ || e == "kt"@ || e == "scala"@ || e == "sh"@ || e == "bat"@ || e == "ps1"@ {
        "text/plain"@
    } else {
        "application/octet-stream"@
    }
}

/// The content types that files are served with, by lower-case extension.
pub open spec fn content_type_table() -> Seq<(Seq<char>, Seq<char>)> {
    seq![
        ("jpg"@, "image/jpeg"@),
        ("jpeg"@, "image/jpeg"@),
        ("png"@, "image/png"@),
        ("gif"@, "image/gif"@),
        ("webp"@, "image/webp"@),
        ("svg"@, "image/svg+xml"@),
        ("bmp"@, "image/bmp"@),
        ("ico"@, "image/x-icon"@),
        ("txt"@, "text/plain"@),
        ("html"@, "text/html"@),
        ("htm"@, "text/html"@),
        ("css"@, "text/css"@),
        ("js"@, "application/javascript"@),
        ("json"@, "application/json"@),
        ("xml"@, "application/xml"@),
        ("csv"@, "text/csv"@),
        ("md"@, "text/markdown"@),
        ("markdown"@, "text/markdown"@),
        ("pdf"@, "application/pdf"@),
        ("doc"@, "application/msword"@),
        ("docx"@, "application/vnd.openxmlformats-officedocument.wordprocessingml.document"@),
        ("xls"@, "application/vnd.ms-excel"@),
        ("xlsx"@, "application/vnd.openxmlformats-officedocument.spreadsheetml.sheet"@),
        ("ppt"@, "application/vnd.ms-powerpoint"@),
        ("pptx"@, "application/vnd.openxmlformats-officedocument.presentationml.presentation"@),
        ("zip"@, "application/zip"@),
        ("rar"@, "application/x-rar-compressed"@),
        ("7z"@, "application/x-7z-compressed"@),
        ("tar"@, "application/x-tar"@),
        ("gz"@, "application/gzip"@),
        ("mp3"@, "audio/mpeg"@),
        ("wav"@, "audio/wav"@),
        ("ogg"@, "audio/ogg"@),
        ("flac"@, "audio/flac"@),
        ("mp4"@, "video/mp4"@),
        ("avi"@, "video/x-msvideo"@),
        ("mov"@, "video/quicktime"@),
        ("wmv"@, "video/x-ms-wmv"@),
        ("webm"@, "video/webm"@),
        ("rs"@, "text/plain"@),
        ("py"@, "text/plain"@),
        ("java"@, "text/plain"@),
        ("cpp"@, "text/plain"@),
        ("cc"@, "text/plain"@),
        ("cxx"@, "text/plain"@),
        ("c"@, "text/plain"@),
        ("h"@, "text/plain"@),
        ("hpp"@, "text/plain"@),
        ("cs"@, "text/plain"@),
        ("php"@, "text/plain"@),
        ("rb"@, "text/plain"@),
        ("go"@, "text/plain"@),
        ("swift"@, "text/plain"@),
        ("kt"@, "text/plain"@),
        ("scala"@, "text/plain"@),
        ("sh"@, "text/plain"@),
        ("bat"@, "text/plain"@),
        ("ps1"@, "text/plain"@),
    ]
}

/// Each extension of the table is served with the content type listed for
/// it; an extension that the table does not list is served as
/// `application/octet-stream`.
#[verifier::spinoff_prover]
#[verifier::rlimit(40)]
pub proof fn law_content_types(i: int, e: Seq<char>)
    requires
        0 <= i < content_type_table().len(),
    ensures
        mime_for(content_type_table()[i].0) == content_type_table()[i].1,
        (forall|j: int| 0 <= j < content_type_table().len() ==> #[trigger] content_type_table()[j].0 != e)
            ==> mime_for(e) == "application/octet-stream"@,
{
    let t = content_type_table();
    assert(t.len() == 58);
    reveal_strlit("jpg");
    reveal_strlit("jpeg");
    reveal_strlit("png");
    reveal_strlit("gif");
    reveal_strlit("webp");
    reveal_strlit("svg");
    reveal_strlit("bmp");
    reveal_strlit("ico");
    reveal_strlit("txt");
    reveal_strlit("html");
    reveal_strlit("htm");
    reveal_strlit("css");
    reveal_strlit("js");
    reveal_strlit("json");
    reveal_strlit("xml");
    reveal_strlit("csv");
    reveal_strlit("md");
    reveal_strlit("markdown");
    reveal_strlit("pdf");
    reveal_strlit("doc");
    reveal_strlit("docx");
    reveal_strlit("xls");
    reveal_strlit("xlsx");
    reveal_strlit("ppt");
    reveal_strlit("pptx");
    reveal_strlit("zip");
    reveal_strlit("rar");
    reveal_strlit("7z");
    reveal_strlit("tar");
    reveal_strlit("gz");
    reveal_strlit("mp3");
    reveal_strlit("wav");
    reveal_strlit("ogg");
    reveal_strlit("flac");
    reveal_strlit("mp4");
    reveal_strlit("avi");
    reveal_strlit("mov");
    reveal_strlit("wmv");
    reveal_strlit("webm");
    reveal_strlit("rs");
    reveal_strlit("py");
    reveal_strlit("java");
    reveal_strlit("cpp");
    reveal_strlit("cc");
    reveal_strlit("cxx");
    reveal_strlit("c");
    reveal_strlit("h");
    reveal_strlit("hpp");
    reveal_strlit("cs");
    reveal_strlit("php");
    reveal_strlit("rb");
    reveal_strlit("go");
    reveal_strlit("swift");
    reveal_strlit("kt");
    reveal_strlit("scala");
    reveal_strlit("sh");
    reveal_strlit("bat");
    reveal_strlit("ps1");
    assert("jpg"@.len() == 3);
    assert("jpeg"@.len() == 4);
    assert("png"@.len() == 3);
    assert("gif"@.len() == 3);
    assert("webp"@.len() == 4);
    assert("svg"@.len() == 3);
    assert("bmp"@.len() == 3);
    assert("ico"@.len() == 3);
    assert("txt"@.len() == 3);
    assert("html"@.len() == 4);
    assert("htm"@.len() == 3);
    assert("css"@.len() == 3);
    assert("js"@.len() == 2);
    assert("json"@.len() == 4);
    assert("xml"@.len() == 3);
    assert("csv"@.len() == 3);
    assert("md"@.len() == 2);
    assert("markdown"@.len() == 8);
    assert("pdf"@.len() == 3);
    assert("doc"@.len() == 3);
    assert("docx"@.len() == 4);
    assert("xls"@.len() == 3);
    assert("xlsx"@.len() == 4);
    assert("ppt"@.len() == 3);
    assert("pptx"@.len() == 4);
    assert("zip"@.len() == 3);
    assert("rar"@.len() == 3);
    assert("7z"@.len() == 2);
    assert("tar"@.len() == 3);
    assert("gz"@.len() == 2);
    assert("mp3"@.len() == 3);
    assert("wav"@.len() == 3);
    assert("ogg"@.len() == 3);
    assert("flac"@.len() == 4);
    assert("mp4"@.len() == 3);
    assert("avi"@.len() == 3);
    assert("mov"@.len() == 3);
    assert("wmv"@.len() == 3);
    assert("webm"@.len() == 4);
    assert("rs"@.len() == 2);
    assert("py"@.len() == 2);
    assert("java"@.len() == 4);
    assert("cpp"@.len() == 3);
    assert("cc"@.len() == 2);
    assert("cxx"@.len() == 3);
    assert("c"@.len() == 1);
    assert("h"@.len() == 1);
    assert("hpp"@.len() == 3);
    assert("cs"@.len() == 2);
    assert("php"@.len() == 3);
    assert("rb"@.len() == 2);
    assert("go"@.len() == 2);
    assert("swift"@.len() == 5);
    assert("kt"@.len() == 2);
    assert("scala"@.len() == 5);
    assert("sh"@.len() == 2);
    assert("bat"@.len() == 3);
    assert("ps1"@.len() == 3);
    if i == 0 {
        assert(t[0].0[0] == 'j' && t[0].0[1] == 'p' && t[0].0[2] == 'g');
        assert(mime_for(t[0].0) == t[0].1);
    } else if i == 1 {
        assert(t[1].0[0] == 'j' && t[1].0[1] == 'p' && t[1].0[2] == 'e' && t[1].0[3] == 'g');
        assert(mime_for(t[1].0) == t[1].1);
    } else if i == 2 {
        assert(t[2].0[0] == 'p' && t[2].0[1] == 'n' && t[2].0[2] == 'g');
        assert(mime_for(t[2].0) == t[2].1);
    } else if i == 3 {
        assert(t[3].0[0] == 'g' && t[3].0[1] == 'i' && t[3].0[2] == 'f');
        assert(mime_for(t[3].0) == t[3].1);
    } else if i == 4 {
        assert(t[4].0[0] == 'w' && t[4].0[1] == 'e' && t[4].0[2] == 'b' && t[4].0[3] == 'p');
        assert(mime_for(t[4].0) == t[4].1);
    } else if i == 5 {
        assert(t[5].0[0] == 's' && t[5].0[1] == 'v' && t[5].0[2] == 'g');
        assert(mime_for(t[5].0) == t[5].1);
    } else if i == 6 {
        assert(t[6].0[0] == 'b' && t[6].0[1] == 'm' && t[6].0[2] == 'p');
        assert(mime_for(t[6].0) == t[6].1);
    } else if i == 7 {
        assert(t[7].0[0] == 'i' && t[7].0[1] == 'c' && t[7].0[2] == 'o');
        assert(mime_for(t[7].0) == t[7].1);
    } else if i == 8 {
        assert(t[8].0[0] == 't' && t[8].0[1] == 'x' && t[8].0[2] == 't');
        assert(mime_for(t[8].0) == t[8].1);
    } else if i == 9 {
        assert(t[9].0[0] == 'h' && t[9].0[1] == 't' && t[9].0[2] == 'm' && t[9].0[3] == 'l');
        assert(mime_for(t[9].0) == t[9].1);
    } else if i == 10 {
        assert(t[10].0[0] == 'h' && t[10].0[1] == 't' && t[10].0[2] == 'm');
        assert(mime_for(t[10].0) == t[10].1);
    } else if i == 11 {
        assert(t[11].0[0] == 'c' && t[11].0[1] == 's' && t[11].0[2] == 's');
        assert(mime_for(t[11].0) == t[11].1);
    } else if i == 12 {
        assert(t[12].0[0] == 'j' && t[12].0[1] == 's');
        assert(mime_for(t[12].0) == t[12].1);
    } else if i == 13 {
        assert(t[13].0[0] == 'j' && t[13].0[1] == 's' && t[13].0[2] == 'o' && t[13].0[3] == 'n');
        assert(mime_for(t[13].0) == t[13].1);
    } else if i == 14 {
        assert(t[14].0[0] == 'x' && t[14].0[1] == 'm' && t[14].0[2] == 'l');
        assert(mime_for(t[14].0) == t[14].1);
    } else if i == 15 {
        assert(t[15].0[0] == 'c' && t[15].0[1] == 's' && t[15].0[2] == 'v');
        assert(mime_for(t[15].0) == t[15].1);
    } else if i == 16 {
        assert(t[16].0[0] == 'm' && t[16].0[1] == 'd');
        assert(mime_for(t[16].0) == t[16].1);
    } else if i == 17 {
        assert(t[17].0[0] == 'm' && t[17].0[1] == 'a' && t[17].0[2] == 'r' && t[17].0[3] == 'k' && t[17].0[4] == 'd' && t[17].0[5] == 'o' && t[17].0[6] == 'w' && t[17].0[7] == 'n');
        assert(mime_for(t[17].0) == t[17].1);
    } else if i == 18 {
        assert(t[18].0[0] == 'p' && t[18].0[1] == 'd' && t[18].0[2] == 'f');
        assert(mime_for(t[18].0) == t[18].1);
    } else if i == 19 {
        assert(t[19].0[0] == 'd' && t[19].0[1] == 'o' && t[19].0[2] == 'c');
        assert(mime_for(t[19].0) == t[19].1);
    } else if i == 20 {
        assert(t[20].0[0] == 'd' && t[20].0[1] == 'o' && t[20].0[2] == 'c' && t[20].0[3] == 'x');
        assert(mime_for(t[20].0) == t[20].1);
    } else if i == 21 {
        assert(t[21].0[0] == 'x' && t[21].0[1] == 'l' && t[21].0[2] == 's');
        assert(mime_for(t[21].0) == t[21].1);
    } else if i == 22 {
        assert(t[22].0[0] == 'x' && t[22].0[1] == 'l' && t[22].0[2] == 's' && t[22].0[3] == 'x');
        assert(mime_for(t[22].0) == t[22].1);
    } else if i == 23 {
        assert(t[23].0[0] == 'p' && t[23].0[1] == 'p' && t[23].0[2] == 't');
        assert(mime_for(t[23].0) == t[23].1);
    } else if i == 24 {
        assert(t[24].0[0] == 'p' && t[24].0[1] == 'p' && t[24].0[2] == 't' && t[24].0[3] == 'x');
        assert(mime_for(t[24].0) == t[24].1);
    } else if i == 25 {
        assert(t[25].0[0] == 'z' && t[25].0[1] == 'i' && t[25].0[2] == 'p');
        assert(mime_for(t[25].0) == t[25].1);
    } else if i == 26 {
        assert(t[26].0[0] == 'r' && t[26].0[1] == 'a' && t[26].0[2] == 'r');
        assert(mime_for(t[26].0) == t[26].1);
    } else if i == 27 {
        assert(t[27].0[0] == '7' && t[27].0[1] == 'z');
        assert(mime_for(t[27].0) == t[27].1);
    } else if i == 28 {
        assert(t[28].0[0] == 't' && t[28].0[1] == 'a' && t[28].0[2] == 'r');
        assert(mime_for(t[28].0) == t[28].1);
    } else if i == 29 {
        assert(t[29].0[0] == 'g' && t[29].0[1] == 'z');
        assert(mime_for(t[29].0) == t[29].1);
    } else if i == 30 {
        assert(t[30].0[0] == 'm' && t[30].0[1] == 'p' && t[30].0[2] == '3');
        assert(mime_for(t[30].0) == t[30].1);
    } else if i == 31 {
        assert(t[31].0[0] == 'w' && t[31].0[1] == 'a' && t[31].0[2] == 'v');
        assert(mime_for(t[31].0) == t[31].1);
    } else if i == 32 {
        assert(t[32].0[0] == 'o' && t[32].0[1] == 'g' && t[32].0[2] == 'g');
        assert(mime_for(t[32].0) == t[32].1);
    } else if i == 33 {
        assert(t[33].0[0] == 'f' && t[33].0[1] == 'l' && t[33].0[2] == 'a' && t[33].0[3] == 'c');
        assert(mime_for(t[33].0) == t[33].1);
    } else if i == 34 {
        assert(t[34].0[0] == 'm' && t[34].0[1] == 'p' && t[34].0[2] == '4');
        assert(mime_for(t[34].0) == t[34].1);
    } else if i == 35 {
        assert(t[35].0[0] == 'a' && t[35].0[1] == 'v' && t[35].0[2] == 'i');
        assert(mime_for(t[35].0) == t[35].1);
    } else if i == 36 {
        assert(t[36].0[0] == 'm' && t[36].0[1] == 'o' && t[36].0[2] == 'v');
        assert(mime_for(t[36].0) == t[36].1);
    } else if i == 37 {
        assert(t[37].0[0] == 'w' && t[37].0[1] == 'm' && t[37].0[2] == 'v');
        assert(mime_for(t[37].0) == t[37].1);
    } else if i == 38 {
        assert(t[38].0[0] == 'w' && t[38].0[1] == 'e' && t[38].0[2] == 'b' && t[38].0[3] == 'm');
        assert(mime_for(t[38].0) == t[38].1);
    } else if i == 39 {
        assert(t[39].0[0] == 'r' && t[39].0[1] == 's');
        assert(mime_for(t[39].0) == t[39].1);
    } else if i == 40 {
        assert(t[40].0[0] == 'p' && t[40].0[1] == 'y');
        assert(mime_for(t[40].0) == t[40].1);
    } else if i == 41 {
        assert(t[41].0[0] == 'j' && t[41].0[1] == 'a' && t[41].0[2] == 'v' && t[41].0[3] == 'a');
        assert(mime_for(t[41].0) == t[41].1);
    } else if i == 42 {
        assert(t[42].0[0] == 'c' && t[42].0[1] == 'p' && t[42].0[2] == 'p');
        assert(mime_for(t[42].0) == t[42].1);
    } else if i == 43 {
        assert(t[43].0[0] == 'c' && t[43].0[1] == 'c');
        assert(mime_for(t[43].0) == t[43].1);
    } else if i == 44 {
        assert(t[44].0[0] == 'c' && t[44].0[1] == 'x' && t[44].0[2] == 'x');
        assert(mime_for(t[44].0) == t[44].1);
    } else if i == 45 {
        assert(t[45].0[0] == 'c');
        assert(mime_for(t[45].0) == t[45].1);
    } else if i == 46 {
        assert(t[46].0[0] == 'h');
        assert(mime_for(t[46].0) == t[46].1);
    } else if i == 47 {
        assert(t[47].0[0] == 'h' && t[47].0[1] == 'p' && t[47].0[2] == 'p');
        assert(mime_for(t[47].0) == t[47].1);
    } else if i == 48 {
        assert(t[48].0[0] == 'c' && t[48].0[1] == 's');
        assert(mime_for(t[48].0) == t[48].1);
    } else if i == 49 {
        assert(t[49].0[0] == 'p' && t[49].0[1] == 'h' && t[49].0[2] == 'p');
        assert(mime_for(t[49].0) == t[49].1);
    } else if i == 50 {
        assert(t[50].0[0] == 'r' && t[50].0[1] == 'b');
        assert(mime_for(t[50].0) == t[50].1);
    } else if i == 51 {
        assert(t[51].0[0] == 'g' && t[51].0[1] == 'o');
        assert(mime_for(t[51].0) == t[51].1);
    } else if i == 52 {
        assert(t[52].0[0] == 's' && t[52].0[1] == 'w' && t[52].0[2] == 'i' && t[52].0[3] == 'f' && t[52].0[4] == 't');
        assert(mime_for(t[52].0) == t[52].1);
    } else if i == 53 {
        assert(t[53].0[0] == 'k' && t[53].0[1] == 't');
        assert(mime_for(t[53].0) == t[53].1);
    } else if i == 54 {
        assert(t[54].0[0] == 's' && t[54].0[1] == 'c' && t[54].0[2] == 'a' && t[54].0[3] == 'l' && t[54].0[4] == 'a');
        assert(mime_for(t[54].0) == t[54].1);
    } else if i == 55 {
        assert(t[55].0[0] == 's' && t[55].0[1] == 'h');
        assert(mime_for(t[55].0) == t[55].1);
    } else if i == 56 {
        assert(t[56].0[0] == 'b' && t[56].0[1] == 'a' && t[56].0[2] == 't');
        assert(mime_for(t[56].0) == t[56].1);
    } else if i == 57 {
        assert(t[57].0[0] == 'p' && t[57].0[1] == 's' && t[57].0[2] == '1');
        assert(mime_for(t[57].0) == t[57].1);
    }
    if forall|j: int| 0 <= j < t.len() ==> #[trigger] t[j].0 != e {
        assert(t[0].0 != e);
        assert(t[1].0 != e);
        assert(t[2].0 != e);
        assert(t[3].0 != e);
        assert(t[4].0 != e);
        assert(t[5].0 != e);
        assert(t[6].0 != e);
        assert(t[7].0 != e);
        assert(t[8].0 != e);
        assert(t[9].0 != e);
        assert(t[10].0 != e);
        assert(t[11].0 != e);
        assert(t[12].0 != e);
        assert(t[13].0 != e);
        assert(t[14].0 != e);
        assert(t[15].0 != e);
        assert(t[16].0 != e);
        assert(t[17].0 != e);
        assert(t[18].0 != e);
        assert(t[19].0 != e);
        assert(t[20].0 != e);
        assert(t[21].0 != e);
        assert(t[22].0 != e);
        assert(t[23].0 != e);
        assert(t[24].0 != e);
        assert(t[25].0 != e);
        assert(t[26].0 != e);
        assert(t[27].0 != e);
        assert(t[28].0 != e);
        assert(t[29].0 != e);
        assert(t[30].0 != e);
        assert(t[31].0 != e);
        assert(t[32].0 != e);
        assert(t[33].0 != e);
        assert(t[34].0 != e);
        assert(t[35].0 != e);
        assert(t[36].0 != e);
        assert(t[37].0 != e);
        assert(t[38].0 != e);
        assert(t[39].0 != e);
        assert(t[40].0 != e);
        assert(t[41].0 != e);
        assert(t[42].0 != e);
        assert(t[43].0 != e);
        assert(t[44].0 != e);
        assert(t[45].0 != e);
        assert(t[46].0 != e);
        assert(t[47].0 != e);
        assert(t[48].0 != e);
        assert(t[49].0 != e);
        assert(t[50].0 != e);
        assert(t[51].0 != e);
        assert(t[52].0 != e);
        assert(t[53].0 != e);
        assert(t[54].0 != e);
        assert(t[55].0 != e);
        assert(t[56].0 != e);
        assert(t[57].0 != e);
    }
}

fn mime_for_ext(e: &str) -> (res: &'static str)
    ensures
        res@ == mime_for(e@),
{
    if str_eq(e, "jpg") || str_eq(e, "jpeg") {
        "image/jpeg"
    } else if str_eq(e, "png") {
        "image/png"
    } else if str_eq(e, "gif") {
        "image/gif"
    } else if str_eq(e, "webp") {
        "image/webp"
    } else if str_eq(e, "svg") {
        "image/svg+xml"
    } else if str_eq(e, "bmp") {
        "image/bmp"
    } else if str_eq(e, "ico") {
        "image/x-icon"
    } else if str_eq(e, "txt") {
        "text/plain"
    } else if str_eq(e, "html") || str_eq(e, "htm") {
        "text/html"
    } else if str_eq(e, "css") {
        "text/css"
    } else if str_eq(e, "js") {
        "application/javascript"
    } else if str_eq(e, "json") {
        "application/json"
    } else if str_eq(e, "xml") {
        "application/xml"
    } else if str_eq(e, "csv") {
        "text/csv"
    } else if str_eq(e, "md") || str_eq(e, "markdown") {
        "text/markdown"
    } else if str_eq(e, "pdf") {
        "application/pdf"
    } else if str_eq(e, "doc") {
        "application/msword"
    } else if str_eq(e, "docx") {
        "application/vnd.openxmlformats-officedocument.wordprocessingml.document"
    } else if str_eq(e, "xls") {
        "application/vnd.ms-excel"
    } else if str_eq(e, "xlsx") {
        "application/vnd.openxmlformats-officedocument.spreadsheetml.sheet"
    } else if str_eq(e, "ppt") {
        "application/vnd.ms-powerpoint"
    } else if str_eq(e, "pptx") {
        "application/vnd.openxmlformats-officedocument.presentationml.presentation"
    } else if str_eq(e, "zip") {
        "application/zip"
    } else if str_eq(e, "rar") {
        "application/x-rar-compressed"
    } else if str_eq(e, "7z") {
        "application/x-7z-compressed"
    } else if str_eq(e, "tar") {
        "application/x-tar"
    } else if str_eq(e, "gz") {
        "application/gzip"
    } else if str_eq(e, "mp3") {
        "audio/mpeg"
    } else if str_eq(e, "wav") {
        "audio/wav"
    } else if str_eq(e, "ogg") {
        "audio/ogg"
    } else if str_eq(e, "flac") {
        "audio/flac"
    } else if str_eq(e, "mp4") {
        "video/mp4"
    } else if str_eq(e, "avi") {
        "video/x-msvideo"
    } else if str_eq(e, "mov") {
        "video/quicktime"
    } else if str_eq(e, "wmv") {
        "video/x-ms-wmv"
    } else if str_eq(e, "webm") {
        "video/webm"
    } else if str_eq(e, "rs") || str_eq(e, "py") || str_eq(e, "java") || str_eq(e, "cpp") || str_eq(e, "cc") || str_eq(e, "cxx") || str_eq(e, "c") || str_eq(e, "h") || str_eq(e, "hpp") || str_eq(e, "cs") || str_eq(e, "php") || str_eq(e, "rb") || str_eq(e, "go") || str_eq(e, "swift") || str_eq(e, "kt") || str_eq(e, "scala") || str_eq(e, "sh") || str_eq(e, "bat") || str_eq(e, "ps1") {
        "text/plain"
    } else {
        "application/octet-stream"
    }
}

/// The content type of a file, from its extension in any case; files
/// without an extension are binary.
pub fn get_mime_type(path: &str) -> (res: &'static str)
    ensures
        file_extension(path@) is None ==> res@ == "application/octet-stream"@,
        file_extension(path@) matches Some(e) ==> res@ == mime_for(lowercase_of(e)),
{
    match path_extension(path) {
        Some(ext) => {
            let lower = to_lowercase(ext.as_str());
            mime_for_ext(lower.as_str())
        },
        None => "application/octet-stream",
    }
}

// ---------------------------------------------------------------------------
// navigation
// ---------------------------------------------------------------------------

/// The non-empty segments of a `/`-separated path.
pub open spec fn path_segments(path: Seq<char>) -> Seq<Seq<char>> {
    split_on(path, '/').filter(|p: Seq<char>| p.len() > 0)
}

/// `/a/b/c` for the segments `a`, `b`, `c`.
pub open spec fn rooted(parts: Seq<Seq<char>>) -> Seq<char>
    decreases parts.len(),
{
    if parts.len() == 0 {
        Seq::empty()
    } else {
        rooted(parts.drop_last()) + "/"@ + parts.last()
    }
}

/// The link of one breadcrumb step.
pub open spec fn crumb_link(folder: Seq<char>, path: Seq<char>, part: Seq<char>) -> Seq<char> {
    "<a href=\"/"@ + folder + "/files"@ + path + "\">📁 "@ + part + "</a>"@
}

/// The links to each directory on the way to the last segment, separated
/// by ` / `.
pub open spec fn crumbs(parts: Seq<Seq<char>>, folder: Seq<char>) -> Seq<char>
    decreases parts.len(),
{
    if parts.len() == 0 {
        Seq::empty()
    } else {
        crumbs(parts.drop_last(), folder) + (if parts.len() > 1 {
            " / "@
        } else {
            Seq::empty()
        }) + crumb_link(folder, rooted(parts), parts.last())
    }
}

/// Links to each directory of `path` inside folder `cloudfolder_name`.
pub fn generate_breadcrumb(path: &str, cloudfolder_name: &str) -> (res: String)
    ensures
        res@ == crumbs(path_segments(path@), cloudfolder_name@),
{
    let parts = split_by(path, '/');
    let ghost segs = split_on(path@, '/');
    let ghost nonempty = |p: Seq<char>| p.len() > 0;
    let mut breadcrumb = String::new();
    let mut current_path = String::new();
    let ghost mut kept: Seq<Seq<char>> = Seq::empty();
    let mut i: usize = 0;
    while i < parts.len()
        invariant
            i <= parts.len(),
            parts@.map_values(|p: String| p@) == segs,
            nonempty == (|p: Seq<char>| p.len() > 0),
            kept == segs.take(i as int).filter(nonempty),
            current_path@ == rooted(kept),
            breadcrumb@ == crumbs(kept, cloudfolder_name@),
        decreases parts.len() - i,
    {
        let part = parts[i].as_str();
        proof {
            assert(segs.take(i + 1) =~= segs.take(i as int).push(segs[i as int]));
            segs.take(i as int).lemma_filter_push(segs[i as int], nonempty);
            assert(part@ == segs[i as int]);
        }
        if part.unicode_len() > 0 {
            let ghost before = kept;
            proof {
                kept = kept.push(part@);
                assert(kept.drop_last() =~= before);
            }
            let a = concat_str(current_path.as_str(), "/");
            current_path = concat_str(a.as_str(), part);
            let sep = if i > 0 && breadcrumb.unicode_len() > 0 {
                " / "
            } else {
                ""
            };
            proof {
                reveal_strlit("");
                reveal_strlit(" / ");
            }
            assert(before.len() > 0 ==> breadcrumb@.len() > 0) by {
                if before.len() > 0 {
                    lemma_crumbs_nonempty(before, cloudfolder_name@);
                }
            }
            let l1 = concat_str("<a href=\"/", cloudfolder_name);
            let l2 = concat_str(l1.as_str(), "/files");
            let l3 = concat_str(l2.as_str(), current_path.as_str());
            let l4 = concat_str(l3.as_str(), "\">📁 ");
            let l5 = concat_str(l4.as_str(), part);
            let link = concat_str(l5.as_str(), "</a>");
            let b1 = concat_str(breadcrumb.as_str(), sep);
            breadcrumb = concat_str(b1.as_str(), link.as_str());
        }
        i = i + 1;
    }
    assert(segs.take(i as int) =~= segs);
    breadcrumb
}

proof fn lemma_crumbs_nonempty(parts: Seq<Seq<char>>, folder: Seq<char>)
    requires
        parts.len() > 0,
    ensures
        crumbs(parts, folder).len() > 0,
{
    reveal_strlit("</a>");
    assert(crumb_link(folder, rooted(parts), parts.last()).len() > 0);
}

// ---------------------------------------------------------------------------
// listings
// ---------------------------------------------------------------------------

/// One entry of a directory listing.
pub struct FileEntry {
    pub name: String,
    pub is_directory: bool,
    pub size: String,
    pub path: String,
}

/// The path of the entry `name` of the directory at `requested` (relative
/// to its cloud folder).
pub open spec fn entry_path_of(requested: Seq<char>, name: Seq<char>) -> Seq<char> {
    if requested.len() == 0 {
        name
    } else {
        requested + "/"@ + name
    }
}

/// The size column of a listing: `DIR` for a folder, the byte count of a
/// file, or `Unknown` when it could not be read.
pub open spec fn size_label_of(is_directory: bool, len: Option<u64>) -> Seq<char> {
    if is_directory {
        "DIR"@
    } else {
        match len {
            Some(n) => decimal(n as nat) + " bytes"@,
            None => "Unknown"@,
        }
    }
}

/// A listing entry read from the directory at `requested`.
pub fn listing_entry(requested: &str, name: String, is_directory: bool, len: Option<u64>) -> (res: FileEntry)
    ensures
        res.name == name,
        res.is_directory == is_directory,
        res.size@ == size_label_of(is_directory, len),
        res.path@ == entry_path_of(requested@, name@),
{
    let size = if is_directory {
        String::from_str("DIR")
    } else {
        match len {
            Some(n) => {
                let digits = u64_to_decimal(n);
                concat_str(digits.as_str(), " bytes")
            },
            None => String::from_str("Unknown"),
        }
    };
    let path = if byte_len(requested) == 0 {
        copy_str(name.as_str())
    } else {
        let a = concat_str(requested, "/");
        concat_str(a.as_str(), name.as_str())
    };
    proof {
        reveal_strlit("DIR");
        reveal_strlit("Unknown");
    }
    FileEntry { name, is_directory, size, path }
}

/// Whether entry `a` may be listed before `b`: folders come before files,
/// and entries of one kind come by name.
pub open spec fn listed_before(a: FileEntry, b: FileEntry) -> bool {
    ||| a.is_directory && !b.is_directory
    ||| a.is_directory == b.is_directory && !lex_lt(b.name@, a.name@)
}

/// A listing in order: folders first, each kind by name.
pub open spec fn listing_sorted(s: Seq<FileEntry>) -> bool {
    forall|i: int, j: int| 0 <= i < j < s.len() ==> listed_before(s[i], s[j])
}

/// Of two entries, one may be listed before the other.
pub proof fn lemma_listed_total(a: FileEntry, b: FileEntry)
    ensures
        listed_before(a, b) || listed_before(b, a),
{
    lemma_lex_asymmetric(a.name@, b.name@);
}

/// Listing order is transitive.
pub proof fn lemma_listed_transitive(a: FileEntry, b: FileEntry, c: FileEntry)
    requires
        listed_before(a, b),
        listed_before(b, c),
    ensures
        listed_before(a, c),
{
    if a.is_directory == b.is_directory && b.is_directory == c.is_directory {
        lemma_lex_total(a.name@, b.name@);
        lemma_lex_total(b.name@, c.name@);
        lemma_lex_total(a.name@, c.name@);
        if lex_lt(c.name@, a.name@) {
            if a.name@ == b.name@ {
            } else if b.name@ == c.name@ {
            } else {
                lemma_lex_transitive(a.name@, b.name@, c.name@);
                lemma_lex_asymmetric(a.name@, c.name@);
            }
        }
    }
}

fn entry_before(a: &FileEntry, b: &FileEntry) -> (res: bool)
    ensures
        res == listed_before(*a, *b),
{
    (a.is_directory && !b.is_directory) || (a.is_directory == b.is_directory && !lex_less(
        b.name.as_str(),
        a.name.as_str(),
    ))
}

/// Where `e` goes in the ordered listing `out`: after every entry that may
/// come before it.
fn insertion_point(out: &Vec<FileEntry>, e: &FileEntry) -> (k: usize)
    requires
        listing_sorted(out@),
    ensures
        k <= out@.len(),
        forall|i: int| 0 <= i < k ==> listed_before(#[trigger] out@[i], *e),
        forall|j: int| k <= j < out@.len() ==> !listed_before(#[trigger] out@[j], *e),
{
    let mut k: usize = 0;
    while k < out.len() && entry_before(&out[k], e)
        invariant
            k <= out@.len(),
            forall|i: int| 0 <= i < k ==> listed_before(#[trigger] out@[i], *e),
        decreases out@.len() - k,
    {
        k = k + 1;
    }
    proof {
        assert forall|j: int| k <= j < out@.len() implies !listed_before(#[trigger] out@[j], *e) by {
            if listed_before(out@[j], *e) && j > k {
                lemma_listed_transitive(out@[k as int], out@[j], *e);
            }
        }
    }
    k
}

/// Orders a directory listing: folders first, then files, each kind by
/// name.
pub fn sort_entries(entries: Vec<FileEntry>) -> (res: Vec<FileEntry>)
    ensures
        res@.to_multiset() == entries@.to_multiset(),
        listing_sorted(res@),
{
    let mut rest = entries;
    let mut out: Vec<FileEntry> = Vec::new();
    proof {
        broadcast use vstd::multiset::group_multiset_axioms;

        vstd::seq_lib::to_multiset_len(out@);
        vstd::multiset::lemma_multiset_empty_len(out@.to_multiset());
        assert(out@.to_multiset() =~= vstd::multiset::Multiset::empty());
        assert(out@.to_multiset().add(rest@.to_multiset()) =~= entries@.to_multiset());
    }
    while rest.len() > 0
        invariant
            out@.to_multiset().add(rest@.to_multiset()) == entries@.to_multiset(),
            listing_sorted(out@),
        decreases rest@.len(),
    {
        let ghost before = rest@;
        let ghost sorted = out@;
        let e = rest.pop().unwrap();
        proof {
            assert(before == rest@.push(e));
        }
        let k = insertion_point(&out, &e);
        out.insert(k, e);
        proof {
            broadcast use vstd::multiset::group_multiset_axioms;

            assert(out@ == sorted.insert(k as int, e));
            vstd::seq_lib::to_multiset_insert(sorted, k as int, e);
            vstd::seq_lib::to_multiset_build(rest@, e);
            assert(out@.to_multiset().add(rest@.to_multiset()) =~= sorted.to_multiset().add(before.to_multiset()));
            assert forall|i: int, j: int| 0 <= i < j < out@.len() implies listed_before(out@[i], out@[j]) by {
                if j == k {
                } else if i == k {
                    lemma_listed_total(sorted[j - 1], e);
                } else {
                    let i0 = if i < k { i } else { i - 1 };
                    let j0 = if j < k { j } else { j - 1 };
                    assert(out@[i] == sorted[i0]);
                    assert(out@[j] == sorted[j0]);
                }
            }
        }
    }
    proof {
        broadcast use vstd::multiset::group_multiset_axioms;

        vstd::seq_lib::to_multiset_len(rest@);
        vstd::multiset::lemma_multiset_empty_len(rest@.to_multiset());
        assert(rest@.to_multiset() =~= vstd::multiset::Multiset::empty());
        assert(out@.to_multiset().add(rest@.to_multiset()) =~= out@.to_multiset());
    }
    out
}

/// The markup of one listing entry.
pub open spec fn entry_markup(e: FileEntry, folder: Seq<char>) -> Seq<char> {
    let class = if e.is_directory { "directory"@ } else { Seq::empty() };
    let icon = if e.is_directory { "📁"@ } else { "📄"@ };
    let link = if e.is_directory {
        "/"@ + folder + "/files/"@ + e.path@
    } else {
        "/"@ + folder + "/static/"@ + e.path@
    };
    "<div class=\"file-item "@ + class + "\">\n                <span class=\"file-icon\">"@ + icon
        + "</span>\n                <span class=\"file-name\"><a href=\""@ + link + "\">"@ + e.name@
        + "</a></span>\n                <span class=\"file-size\">"@ + e.size@
        + "</span>\n            </div>"@
}

/// The markup of all entries, in order.
pub open spec fn entries_markup(items: Seq<FileEntry>, folder: Seq<char>) -> Seq<char>
    decreases items.len(),
{
    if items.len() == 0 {
        Seq::empty()
    } else {
        entries_markup(items.drop_last(), folder) + entry_markup(items.last(), folder)
    }
}

/// The listing of a directory; a note when it is empty.
pub open spec fn listing_markup(items: Seq<FileEntry>, folder: Seq<char>) -> Seq<char> {
    if items.len() == 0 {
        "<p>📭 This directory is empty</p>"@
    } else {
        entries_markup(items, folder)
    }
}

proof fn lemma_contains_middle(a: Seq<char>, p: Seq<char>, b: Seq<char>)
    ensures
        contains_seq(a + p + b, p),
{
    assert((a + p + b).subrange(a.len() as int, (a.len() + p.len()) as int) =~= p);
}

proof fn lemma_contains_widened(x: Seq<char>, p: Seq<char>, y: Seq<char>)
    requires
        contains_seq(x, p),
    ensures
        contains_seq(x + y, p),
        contains_seq(y + x, p),
{
    let j = choose|j: int| 0 <= j <= x.len() - p.len() && #[trigger] x.subrange(j, j + p.len()) == p;
    assert((x + y).subrange(j, j + p.len()) =~= x.subrange(j, j + p.len()));
    assert((y + x).subrange(y.len() + j, y.len() + j + p.len()) =~= x.subrange(j, j + p.len()));
}

/// The link of an entry: a folder is browsed under `/<folder>/files/`, a
/// file is downloaded from `/<folder>/static/`, each by its path inside the
/// cloud folder.
proof fn lemma_entry_link(e: FileEntry, folder: Seq<char>)
    ensures
        contains_seq(
            entry_markup(e, folder),
            "<a href=\""@ + (if e.is_directory {
                "/"@ + folder + "/files/"@ + e.path@
            } else {
                "/"@ + folder + "/static/"@ + e.path@
            }) + "\">"@ + e.name@,
        ),
{
    let l4 = "</span>\n                <span class=\"file-name\"><a href=\""@;
    reveal_strlit("</span>\n                <span class=\"file-name\"><a href=\"");
    reveal_strlit("<a href=\"");
    let opening = "<a href=\""@;
    let l4_head = l4.subrange(0, l4.len() - opening.len());
    assert(l4 =~= l4_head + opening);
    let class = if e.is_directory { "directory"@ } else { Seq::empty() };
    let icon = if e.is_directory { "📁"@ } else { "📄"@ };
    let link = if e.is_directory {
        "/"@ + folder + "/files/"@ + e.path@
    } else {
        "/"@ + folder + "/static/"@ + e.path@
    };
    let head = "<div class=\"file-item "@ + class + "\">\n                <span class=\"file-icon\">"@ + icon;
    let tail = "</a></span>\n                <span class=\"file-size\">"@ + e.size@ + "</span>\n            </div>"@;
    let piece = opening + link + "\">"@ + e.name@;
    assert(entry_markup(e, folder) =~= (head + l4_head) + piece + tail);
    lemma_contains_middle(head + l4_head, piece, tail);
}

/// Every entry of a listing, taken in order, has its link in the listing.
proof fn lemma_entries_links(items: Seq<FileEntry>, folder: Seq<char>, i: int)
    requires
        0 <= i < items.len(),
    ensures
        contains_seq(
            entries_markup(items, folder),
            "<a href=\""@ + (if items[i].is_directory {
                "/"@ + folder + "/files/"@ + items[i].path@
            } else {
                "/"@ + folder + "/static/"@ + items[i].path@
            }) + "\">"@ + items[i].name@,
        ),
    decreases items.len(),
{
    let e = items[i];
    let piece = "<a href=\""@ + (if e.is_directory {
        "/"@ + folder + "/files/"@ + e.path@
    } else {
        "/"@ + folder + "/static/"@ + e.path@
    }) + "\">"@ + e.name@;
    let init = items.drop_last();
    if i == items.len() - 1 {
        lemma_entry_link(e, folder);
        lemma_contains_widened(entry_markup(items.last(), folder), piece, entries_markup(init, folder));
    } else {
        assert(init[i] == e);
        lemma_entries_links(init, folder, i);
        lemma_contains_widened(entries_markup(init, folder), piece, entry_markup(items.last(), folder));
    }
}

/// In a directory listing each entry links by its path inside the cloud
/// folder: a folder to `/<folder>/files/<path>`, a file to
/// `/<folder>/static/<path>`, with the entry's name as the link text.
pub proof fn law_listing_links_by_path(items: Seq<FileEntry>, folder: Seq<char>, i: int)
    requires
        0 <= i < items.len(),
    ensures
        items[i].is_directory ==> contains_seq(
            listing_markup(items, folder),
            "<a href=\"/"@ + folder + "/files/"@ + items[i].path@ + "\">"@ + items[i].name@,
        ),
        !items[i].is_directory ==> contains_seq(
            listing_markup(items, folder),
            "<a href=\"/"@ + folder + "/static/"@ + items[i].path@ + "\">"@ + items[i].name@,
        ),
{
    reveal_strlit("<a href=\"/");
    reveal_strlit("<a href=\"");
    reveal_strlit("/");
    lemma_entries_links(items, folder, i);
    let e = items[i];
    let link = if e.is_directory {
        "/"@ + folder + "/files/"@ + e.path@
    } else {
        "/"@ + folder + "/static/"@ + e.path@
    };
    let mid = if e.is_directory { "/files/"@ } else { "/static/"@ };
    assert("<a href=\""@ + link + "\">"@ + e.name@ =~= "<a href=\"/"@ + folder + mid + e.path@ + "\">"@ + e.name@);
}

fn entry_html(e: &FileEntry, folder: &str) -> (res: String)
    ensures
        res@ == entry_markup(*e, folder@),
{
    let class = if e.is_directory {
        "directory"
    } else {
        ""
    };
    let icon = if e.is_directory {
        "📁"
    } else {
        "📄"
    };
    let k1 = concat_str("/", folder);
    let k2 = if e.is_directory {
        concat_str(k1.as_str(), "/files/")
    } else {
        concat_str(k1.as_str(), "/static/")
    };
    let link = concat_str(k2.as_str(), e.path.as_str());
    proof {
        reveal_strlit("");
    }
    let h1 = concat_str("<div class=\"file-item ", class);
    let h2 = concat_str(h1.as_str(), "\">\n                <span class=\"file-icon\">");
    let h3 = concat_str(h2.as_str(), icon);
    let h4 = concat_str(h3.as_str(), "</span>\n                <span class=\"file-name\"><a href=\"");
    let h5 = concat_str(h4.as_str(), link.as_str());
    let h6 = concat_str(h5.as_str(), "\">");
    let h7 = concat_str(h6.as_str(), e.name.as_str());
    let h8 = concat_str(h7.as_str(), "</a></span>\n                <span class=\"file-size\">");
    let h9 = concat_str(h8.as_str(), e.size.as_str());
    concat_str(h9.as_str(), "</span>\n            </div>")
}

/// The markup listing the entries of a directory of folder
/// `cloudfolder_name`.
pub fn generate_file_list(items: &[FileEntry], cloudfolder_name: &str) -> (res: String)
    ensures
        res@ == listing_markup(items@, cloudfolder_name@),
{
    if items.len() == 0 {
        return String::from_str("<p>📭 This directory is empty</p>");
    }
    let mut html = String::new();
    let mut i: usize = 0;
    while i < items.len()
        invariant
            i <= items.len(),
            html@ == entries_markup(items@.take(i as int), cloudfolder_name@),
        decreases items.len() - i,
    {
        let e = entry_html(&items[i], cloudfolder_name);
        proof {
            assert(items@.take(i + 1).drop_last() =~= items@.take(i as int));
        }
        html = concat_str(html.as_str(), e.as_str());
        i = i + 1;
    }
    assert(items@.take(i as int) =~= items@);
    html
}

// ---------------------------------------------------------------------------
// request checks
// ---------------------------------------------------------------------------

/// A refused request: HTTP status, short error and explanation.
pub struct ApiError {
    pub status: u16,
    pub error: String,
    pub message: String,
}

/// The answer to an API request without valid credentials.
pub fn api_unauthorized() -> (res: ApiError)
    ensures
        res.status == 401,
        res.error@ == "Unauthorized"@,
        res.message@ == "Authentication required. Please provide a valid JWT token."@,
{
    ApiError {
        status: 401,
        error: String::from_str("Unauthorized"),
        message: String::from_str("Authentication required. Please provide a valid JWT token."),
    }
}

/// Where an API request for `sub` in the cloud folder `folder` leads: the
/// folder's name is checked first, then the credentials, then that the
/// cloud serves the folder; the answer is the path on disk and the
/// folder's own directory.
pub open spec fn browse_outcome(cloud: Cloud, folder: Seq<char>, sub: Seq<char>, authorized: bool) -> Result<
    (Seq<char>, Seq<char>),
    (u16, Seq<char>, Seq<char>),
> {
    if name_refusal(folder) is Some {
        Err((400, "Invalid Input"@, name_refusal(folder)->Some_0))
    } else if !authorized {
        Err((401, "Unauthorized"@, "Authentication required. Please provide a valid JWT token."@))
    } else if !folder_names(cloud.cloud_folders@).contains(folder) {
        Err((404, "Not Found"@, "Cloud folder not found"@))
    } else {
        let i = choose|i: int| is_first_index(folder_names(cloud.cloud_folders@), folder, i);
        let base = cloud.cloud_folders@[i].folder_path@;
        Ok((if sub.len() == 0 { base } else { joined_path(base, sub) }, base))
    }
}

/// The view of an API answer.
pub open spec fn api_answer(r: Result<(String, String), ApiError>) -> Result<
    (Seq<char>, Seq<char>),
    (u16, Seq<char>, Seq<char>),
> {
    match r {
        Ok(t) => Ok((t.0@, t.1@)),
        Err(e) => Err((e.status, e.error@, e.message@)),
    }
}

/// Resolves an API request for `sub` in the cloud folder `folder` to a path
/// on disk and the folder's directory (see `browse_outcome`).
pub fn browse_target(cloud: &Cloud, folder: &str, sub: &str, authorized: bool) -> (res: Result<
    (String, String),
    ApiError,
>)
    ensures
        api_answer(res) == browse_outcome(*cloud, folder@, sub@, authorized),
{
    match validate_cloudfolder_name(folder) {
        Err(e) => {
            return Err(e);
        },
        Ok(()) => {},
    }
    if !authorized {
        return Err(api_unauthorized());
    }
    let f = match find_cloud_folder(cloud, folder) {
        Some(f) => f,
        None => {
            return Err(
                ApiError {
                    status: 404,
                    error: String::from_str("Not Found"),
                    message: String::from_str("Cloud folder not found"),
                },
            );
        },
    };
    proof {
        let i = choose|i: int| is_first_index(folder_names(cloud.cloud_folders@), folder@, i);
        let j = choose|j: int| is_first_index(folder_names(cloud.cloud_folders@), folder@, j) && *f == cloud.cloud_folders@[j];
        assert(i == j) by {
            if i < j {
                assert(folder_names(cloud.cloud_folders@)[i] == folder@);
            } else if j < i {
                assert(folder_names(cloud.cloud_folders@)[j] == folder@);
            }
        }
    }
    let target = construct_directory_path(f, sub);
    Ok((target, copy_str(f.folder_path.as_str())))
}

/// What a resolved path is.
#[derive(Debug, Clone, Copy, PartialEq, Eq, Structural)]
pub enum BrowseKind {
    Directory,
    File,
}

/// What a browse request finds at `target` (in the folder's directory
/// `base`), given whether the path exists and is a directory: a missing
/// path is not found; a directory outside the folder fails its listing
/// with the status text of a refusal; else a directory listing or a file's
/// information.
pub open spec fn browse_kind_outcome(target: Seq<char>, base: Seq<char>, on_disk: bool, is_dir: bool) -> Result<
    BrowseKind,
    (u16, Seq<char>, Seq<char>),
> {
    if !on_disk {
        Err((404, "Not Found"@, "The requested resource was not found"@))
    } else if is_dir && !path_has_prefix(target, base) {
        Err((500, "Directory browsing error"@, "403 Forbidden"@))
    } else if is_dir {
        Ok(BrowseKind::Directory)
    } else {
        Ok(BrowseKind::File)
    }
}

/// `browse_kind_outcome` on values; the containment is checked with
/// `Path::starts_with`.
pub fn browse_kind(target: &str, base: &str, on_disk: bool, is_dir: bool) -> (res: Result<BrowseKind, ApiError>)
    ensures
        match res {
            Ok(k) => browse_kind_outcome(target@, base@, on_disk, is_dir) == Ok::<
                BrowseKind,
                (u16, Seq<char>, Seq<char>),
            >(k),
            Err(e) => browse_kind_outcome(target@, base@, on_disk, is_dir) == Err::<
                BrowseKind,
                (u16, Seq<char>, Seq<char>),
            >((e.status, e.error@, e.message@)),
        },
{
    if !on_disk {
        return Err(
            ApiError {
                status: 404,
                error: String::from_str("Not Found"),
                message: String::from_str("The requested resource was not found"),
            },
        );
    }
    if is_dir {
        if !path_starts_with(target, base) {
            return Err(
                ApiError {
                    status: 500,
                    error: String::from_str("Directory browsing error"),
                    message: String::from_str("403 Forbidden"),
                },
            );
        }
        return Ok(BrowseKind::Directory);
    }
    Ok(BrowseKind::File)
}

/// The information an API answer gives about a file.
pub struct FileInfo {
    pub name: String,
    pub path: String,
    pub size: u64,
    pub download_url: String,
}

/// The address a file of `folder` at `path` is downloaded from.
pub open spec fn download_url_of(folder: Seq<char>, path: Seq<char>) -> Seq<char> {
    "/api/"@ + folder + "/static/"@ + path
}

/// The information about the file at `target`, asked for as `requested` in
/// the cloud folder `folder`: its file name (`unknown` when the path has
/// none), the requested path, its size, and where to download it.
pub fn file_info(folder: &str, requested: &str, target: &str, size: u64) -> (res: FileInfo)
    ensures
        res.name@ == (match crate::editor::path_file_name(target@) {
            Some(n) => n,
            None => "unknown"@,
        }),
        res.path@ == requested@,
        res.size == size,
        res.download_url@ == download_url_of(folder@, requested@),
{
    let name = match crate::editor::file_name(target) {
        Some(n) => n,
        None => String::from_str("unknown"),
    };
    let a = concat_str("/api/", folder);
    let b = concat_str(a.as_str(), "/static/");
    let url = concat_str(b.as_str(), requested);
    proof {
        reveal_strlit("unknown");
    }
    FileInfo { name, path: copy_str(requested), size, download_url: url }
}

/// Why a folder name is refused, if it is.
pub open spec fn name_refusal(name: Seq<char>) -> Option<Seq<char>> {
    if name.len() == 0 || utf8_len(name) > 100 {
        Some("Cloud folder name must be between 1 and 100 characters"@)
    } else if contains_seq(name, ".."@) || contains_seq(name, "/"@) || contains_seq(name, "\\"@) {
        Some("Cloud folder name contains invalid characters"@)
    } else if trim(name).len() == 0 {
        Some("Cloud folder name cannot be only whitespace"@)
    } else {
        None
    }
}

/// A folder name of 1 to 100 bytes is accepted when it holds no `/`, no `\`,
/// no two dots in a row, and some character that is not white space; any
/// other character, a hyphen among them, is allowed.
pub proof fn law_plain_name_accepted(name: Seq<char>, i: int)
    requires
        name.len() > 0,
        utf8_len(name) <= 100,
        !name.contains('/'),
        !name.contains('\\'),
        forall|j: int| 0 <= j < name.len() - 1 ==> !(#[trigger] name[j] == '.' && name[j + 1] == '.'),
        0 <= i < name.len(),
        !is_ws(name[i]),
    ensures
        name_refusal(name) is None,
{
    reveal_strlit("..");
    reveal_strlit("/");
    reveal_strlit("\\");
    assert(!contains_seq(name, ".."@)) by {
        if contains_seq(name, ".."@) {
            let j = choose|j: int| 0 <= j <= name.len() - ".."@.len() && #[trigger] name.subrange(j, j + ".."@.len()) == ".."@;
            assert(name.subrange(j, j + 2)[0] == name[j]);
            assert(name.subrange(j, j + 2)[1] == name[j + 1]);
            assert(name[j] == '.' && name[j + 1] == '.');
        }
    }
    assert(!contains_seq(name, "/"@)) by {
        if contains_seq(name, "/"@) {
            let j = choose|j: int| 0 <= j <= name.len() - "/"@.len() && #[trigger] name.subrange(j, j + "/"@.len()) == "/"@;
            assert(name.subrange(j, j + 1)[0] == name[j]);
            assert(name[j] == '/');
        }
    }
    assert(!contains_seq(name, "\\"@)) by {
        if contains_seq(name, "\\"@) {
            let j = choose|j: int| 0 <= j <= name.len() - "\\"@.len() && #[trigger] name.subrange(j, j + "\\"@.len()) == "\\"@;
            assert(name.subrange(j, j + 1)[0] == name[j]);
            assert(name[j] == '\\');
        }
    }
    lemma_trim_keeps_non_ws(name, i);
}

fn invalid_input(message: &str) -> (res: ApiError)
    ensures
        res.status == 400,
        res.error@ == "Invalid Input"@,
        res.message@ == message@,
{
    ApiError {
        status: 400,
        error: String::from_str("Invalid Input"),
        message: String::from_str(message),
    }
}

/// Checks a folder name from a request: 1 to 100 bytes, no `..`, `/` or
/// `\`, and not only white space. A refusal is a 400 "Invalid Input".
pub fn validate_cloudfolder_name(name: &str) -> (res: Result<(), ApiError>)
    ensures
        res is Ok <==> name_refusal(name@) is None,
        res matches Err(e) ==> e.status == 400 && e.error@ == "Invalid Input"@ && e.message@
            == name_refusal(name@)->Some_0,
{
    if name.unicode_len() == 0 || byte_len(name) > 100 {
        return Err(invalid_input("Cloud folder name must be between 1 and 100 characters"));
    }
    if str_contains(name, "..") || str_contains(name, "/") || str_contains(name, "\\") {
        return Err(invalid_input("Cloud folder name contains invalid characters"));
    }
    let t = trim_str(name);
    if t.unicode_len() == 0 {
        return Err(invalid_input("Cloud folder name cannot be only whitespace"));
    }
    Ok(())
}

/// The name, with its `=`, of the login cookie of the cloud served on
/// `port`: `auth_token_<port>=`.
pub open spec fn cookie_prefix(port: u16) -> Seq<char> {
    "auth_token_"@ + decimal(port as nat) + "="@
}

/// The tokens of the login cookies of the cloud on `port` in a `Cookie`
/// header, in order.
pub open spec fn cookie_tokens_of(cookies: Seq<Seq<char>>, port: u16) -> Seq<Seq<char>>
    decreases cookies.len(),
{
    if cookies.len() == 0 {
        Seq::empty()
    } else {
        let rest = cookie_tokens_of(cookies.drop_last(), port);
        let c = trim(cookies.last());
        if starts_with(c, cookie_prefix(port)) {
            rest.push(c.skip(cookie_prefix(port).len() as int))
        } else {
            rest
        }
    }
}

/// The login tokens that a `Cookie` header carries for the cloud served on
/// `port` (cookies named `auth_token_<port>`), in the order the server
/// tries them.
pub fn cookie_tokens(header: &str, port: u16) -> (res: Vec<String>)
    ensures
        res@.map_values(|t: String| t@) == cookie_tokens_of(split_on(header@, ';'), port),
{
    let digits = u64_to_decimal(port as u64);
    let a = concat_str("auth_token_", digits.as_str());
    let prefix = concat_str(a.as_str(), "=");
    let k = prefix.unicode_len();
    proof {
        reveal_strlit("auth_token_");
        reveal_strlit("=");
        assert(prefix@ == cookie_prefix(port));
    }
    let cookies = split_by(header, ';');
    let ghost cs = split_on(header@, ';');
    let mut res: Vec<String> = Vec::new();
    let mut i: usize = 0;
    while i < cookies.len()
        invariant
            i <= cookies.len(),
            cookies@.map_values(|p: String| p@) == cs,
            prefix@ == cookie_prefix(port),
            k == prefix@.len(),
            res@.map_values(|t: String| t@) == cookie_tokens_of(cs.take(i as int), port),
        decreases cookies.len() - i,
    {
        let c = trim_str(cookies[i].as_str());
        proof {
            assert(cs.take(i + 1).drop_last() =~= cs.take(i as int));
            assert(cookies@[i as int]@ == cs[i as int]);
        }
        if str_starts_with(c.as_str(), prefix.as_str()) {
            let n = c.unicode_len();
            let ghost before = res@;
            res.push(copy_str(c.as_str().substring_char(k, n)));
            proof {
                assert(c@.skip(k as int) =~= c@.subrange(k as int, n as int));
                assert(res@.map_values(|t: String| t@) =~= before.map_values(|t: String| t@).push(
                    c@.skip(k as int),
                ));
            }
        }
        i = i + 1;
    }
    assert(cs.take(i as int) =~= cs);
    res
}

/// Headers added to every API answer.
pub fn security_headers() -> (res: Vec<(&'static str, &'static str)>)
    ensures
        res@.len() == 4,
        res@[0].0@ == "X-Content-Type-Options"@ && res@[0].1@ == "nosniff"@,
        res@[1].0@ == "X-Frame-Options"@ && res@[1].1@ == "DENY"@,
        res@[2].0@ == "X-XSS-Protection"@ && res@[2].1@ == "1; mode=block"@,
        res@[3].0@ == "Content-Security-Policy"@ && res@[3].1@
            == "default-src 'none'; frame-ancestors 'none'"@,
{
    vec![
        ("X-Content-Type-Options", "nosniff"),
        ("X-Frame-Options", "DENY"),
        ("X-XSS-Protection", "1; mode=block"),
        ("Content-Security-Policy", "default-src 'none'; frame-ancestors 'none'"),
    ]
}

// ---------------------------------------------------------------------------
// uploads
// ---------------------------------------------------------------------------

/// Position of the last `c` in `s`, or -1.
pub open spec fn last_index_of(s: Seq<char>, c: char) -> int
    decreases s.len(),
{
    if s.len() == 0 {
        -1
    } else if s.last() == c {
        s.len() - 1
    } else {
        last_index_of(s.drop_last(), c)
    }
}

proof fn lemma_last_index_bounds(s: Seq<char>, c: char)
    ensures
        -1 <= last_index_of(s, c) < s.len(),
        last_index_of(s, c) >= 0 ==> s[last_index_of(s, c)] == c,
    decreases s.len(),
{
    if s.len() > 0 && s.last() != c {
        lemma_last_index_bounds(s.drop_last(), c);
    }
}

/// A file name without its extension (everything before the last `.`).
pub open spec fn stem_part(f: Seq<char>) -> Seq<char> {
    let k = last_index_of(f, '.');
    if k < 0 {
        f
    } else {
        f.subrange(0, k)
    }
}

/// The extension of a file name with its `.`, or nothing.
pub open spec fn ext_part(f: Seq<char>) -> Seq<char> {
    let k = last_index_of(f, '.');
    if k < 0 {
        Seq::empty()
    } else {
        f.subrange(k, f.len() as int)
    }
}

/// `name(i).ext`: the `i`-th alternative to a taken file name.
pub open spec fn numbered_name(f: Seq<char>, i: nat) -> Seq<char> {
    stem_part(f) + "("@ + decimal(i) + ")"@ + ext_part(f)
}

/// `name_stamp.ext`: the alternative when the numbered ones are taken.
pub open spec fn stamped_name(f: Seq<char>, stamp: Seq<char>) -> Seq<char> {
    stem_part(f) + "_"@ + stamp + ext_part(f)
}

/// `n` in decimal, padded with leading zeros to `w` digits.
pub open spec fn zero_padded(n: nat, w: nat) -> Seq<char> {
    let d = decimal(n);
    if d.len() < w {
        Seq::new((w - d.len()) as nat, |i: int| '0') + d
    } else {
        d
    }
}

/// The proleptic Gregorian date `(year, month, day)` of the day `days`
/// after 1970-01-01.
pub open spec fn civil_date(days: nat) -> (nat, nat, nat) {
    let z = days + 719468;
    let era = z / 146097;
    let doe = z - era * 146097;
    let yoe = (doe - doe / 1460 + doe / 36524 - doe / 146096) / 365;
    let doy = doe - (365 * yoe + yoe / 4 - yoe / 100);
    let mp = (5 * doy + 2) / 153;
    let d = doy - (153 * mp + 2) / 5 + 1;
    let m = if mp < 10 { mp + 3 } else { mp - 9 };
    let y = yoe + era * 400 + if m <= 2 { 1int } else { 0int };
    (y as nat, m as nat, d as nat)
}

/// The stamp of an upload at `secs` seconds and `nanos` nanoseconds after
/// 1970-01-01 UTC, as `%Y%m%d_%H%M%S_%3f`: `YYYYMMDD_HHMMSS_mmm`.
pub open spec fn upload_stamp(secs: nat, nanos: nat) -> Seq<char> {
    let (y, m, d) = civil_date(secs / 86400);
    let t = secs % 86400;
    zero_padded(y, 4) + zero_padded(m, 2) + zero_padded(d, 2) + "_"@ + zero_padded(t / 3600, 2)
        + zero_padded((t % 3600) / 60, 2) + zero_padded(t % 60, 2) + "_"@ + zero_padded(nanos / 1_000_000, 3)
}

/// `n` in decimal with leading zeros up to `w` digits.
pub fn zero_padded_text(n: u64, w: usize) -> (res: String)
    ensures
        res@ == zero_padded(n as nat, w as nat),
{
    let d = u64_to_decimal(n);
    let k = d.unicode_len();
    if k >= w {
        return d;
    }
    let mut zeros = String::new();
    let mut i: usize = 0;
    proof {
        reveal_strlit("");
    }
    while i < w - k
        invariant
            i <= w - k,
            k < w,
            zeros@ == Seq::new(i as nat, |j: int| '0'),
        decreases w - k - i,
    {
        crate::text::push_char(&mut zeros, '0');
        assert(zeros@ =~= Seq::new((i + 1) as nat, |j: int| '0'));
        i = i + 1;
    }
    concat_str(zeros.as_str(), d.as_str())
}

/// `civil_date` on machine numbers.
pub fn civil_date_of(days: u64) -> (res: (u64, u64, u64))
    requires
        days <= u64::MAX / 2,
    ensures
        (res.0 as nat, res.1 as nat, res.2 as nat) == civil_date(days as nat),
{
    let z = days + 719468;
    let era = z / 146097;
    let doe = z - era * 146097;
    assert(doe < 146097) by (nonlinear_arith)
        requires era == z / 146097, doe == z - era * 146097;
    assert(doe / 1460 <= doe) by (nonlinear_arith) requires doe >= 0;
    assert(doe / 146096 <= doe / 1460) by (nonlinear_arith) requires doe >= 0;
    let a = doe + doe / 36524 - doe / 1460 - doe / 146096;
    let yoe = a / 365;
    assert(yoe <= 400) by (nonlinear_arith) requires yoe == a / 365, a <= doe + doe / 36524, doe < 146097;
    assert(365 * yoe + yoe / 4 - yoe / 100 <= doe) by (nonlinear_arith)
        requires
            doe < 146097,
            a == doe + doe / 36524 - doe / 1460 - doe / 146096,
            yoe == a / 365,
    ;
    let doy = doe - (365 * yoe + yoe / 4 - yoe / 100);
    assert(doy <= 365) by (nonlinear_arith)
        requires
            doe < 146097,
            a == doe + doe / 36524 - doe / 1460 - doe / 146096,
            yoe == a / 365,
            doy == doe - (365 * yoe + yoe / 4 - yoe / 100),
    ;
    let mp = (5 * doy + 2) / 153;
    assert((153 * mp + 2) / 5 <= doy) by (nonlinear_arith) requires mp == (5 * doy + 2) / 153, doy >= 0;
    let d = doy - (153 * mp + 2) / 5 + 1;
    let m = if mp < 10 { mp + 3 } else { mp - 9 };
    let y = yoe + era * 400 + if m <= 2 { 1 } else { 0 };
    (y, m, d)
}

/// The upload stamp of a clock reading (see `upload_stamp`).
pub fn upload_stamp_text(secs: u64, nanos: u32) -> (res: String)
    ensures
        res@ == upload_stamp(secs as nat, nanos as nat),
{
    let (y, m, d) = civil_date_of(secs / 86400);
    let t = secs % 86400;
    let p1 = zero_padded_text(y, 4);
    let p2 = zero_padded_text(m, 2);
    let p3 = zero_padded_text(d, 2);
    let p4 = zero_padded_text(t / 3600, 2);
    let p5 = zero_padded_text((t % 3600) / 60, 2);
    let p6 = zero_padded_text(t % 60, 2);
    let p7 = zero_padded_text((nanos / 1_000_000) as u64, 3);
    let a = concat_str(p1.as_str(), p2.as_str());
    let b = concat_str(a.as_str(), p3.as_str());
    let c = concat_str(b.as_str(), "_");
    let e = concat_str(c.as_str(), p4.as_str());
    let f = concat_str(e.as_str(), p5.as_str());
    let g = concat_str(f.as_str(), p6.as_str());
    let h = concat_str(g.as_str(), "_");
    concat_str(h.as_str(), p7.as_str())
}

fn last_dot(f: &str) -> (res: Option<usize>)
    ensures
        res is None ==> last_index_of(f@, '.') < 0,
        res matches Some(k) ==> k == last_index_of(f@, '.') && k < f@.len(),
{
    let n = f.unicode_len();
    let mut j: usize = n;
    assert(f@.take(n as int) =~= f@);
    while j > 0
        invariant
            j <= n,
            n == f@.len(),
            last_index_of(f@, '.') == last_index_of(f@.take(j as int), '.'),
        decreases j,
    {
        assert(f@.take(j as int).drop_last() =~= f@.take(j - 1));
        if f.get_char(j - 1) == '.' {
            proof {
                lemma_last_index_bounds(f@, '.');
            }
            return Some(j - 1);
        }
        j = j - 1;
    }
    assert(f@.take(0) =~= Seq::<char>::empty());
    None
}

/// The first position in `taken` that is not taken.
pub open spec fn first_free(taken: Seq<bool>) -> Option<nat>
    decreases taken.len(),
{
    if taken.len() == 0 {
        None
    } else {
        match first_free(taken.drop_last()) {
            Some(i) => Some(i),
            None => if taken.last() {
                None
            } else {
                Some((taken.len() - 1) as nat)
            },
        }
    }
}

/// The name an upload of `f` is stored under, given what the disk said:
/// whether the directory exists, whether `f` is taken in it, whether each
/// of `name(1).ext`, `name(2).ext`, ... is taken (in order), and the time
/// stamp for when all of them are.
pub open spec fn upload_name(f: Seq<char>, dir_exists: bool, name_taken: bool, taken: Seq<bool>, stamp: Seq<char>) -> Seq<
    char,
> {
    if !dir_exists || !name_taken {
        f
    } else {
        match first_free(taken) {
            Some(i) => numbered_name(f, i + 1),
            None => stamped_name(f, stamp),
        }
    }
}

/// `name(i).ext` for the file name `filename`.
pub fn numbered_candidate(filename: &str, i: u64) -> (res: String)
    ensures
        res@ == numbered_name(filename@, i as nat),
{
    let (name, extension) = name_parts(filename);
    let a = concat_str(name.as_str(), "(");
    let d = u64_to_decimal(i);
    let b = concat_str(a.as_str(), d.as_str());
    let c = concat_str(b.as_str(), ")");
    concat_str(c.as_str(), extension.as_str())
}

/// `name_<stamp>.ext` for the file name `filename`.
pub fn stamped_candidate(filename: &str, stamp: &str) -> (res: String)
    ensures
        res@ == stamped_name(filename@, stamp@),
{
    let (name, extension) = name_parts(filename);
    let a = concat_str(name.as_str(), "_");
    let b = concat_str(a.as_str(), stamp);
    concat_str(b.as_str(), extension.as_str())
}

/// A file name split at its last `.`: the stem and the extension with its
/// dot.
fn name_parts(filename: &str) -> (res: (String, String))
    ensures
        res.0@ == stem_part(filename@),
        res.1@ == ext_part(filename@),
{
    let n = filename.unicode_len();
    proof {
        lemma_last_index_bounds(filename@, '.');
        reveal_strlit("");
    }
    match last_dot(filename) {
        Some(k) => (copy_str(filename.substring_char(0, k)), copy_str(filename.substring_char(k, n))),
        None => (copy_str(filename), String::new()),
    }
}

/// The path in directory `base_path` that is probed for the candidate
/// `name(i).ext` of `filename`.
pub fn numbered_probe(base_path: &str, filename: &str, i: u64) -> (res: String)
    ensures
        res@ == joined_path(base_path@, numbered_name(filename@, i as nat)),
{
    let candidate = numbered_candidate(filename, i);
    path_join(base_path, candidate.as_str())
}

/// Picks the name of an upload from what the disk said (see
/// `upload_name`).
pub fn choose_upload_name(filename: &str, dir_exists: bool, name_taken: bool, taken: &Vec<bool>, stamp: &str) -> (res:
    String)
    requires
        taken@.len() < u64::MAX,
    ensures
        res@ == upload_name(filename@, dir_exists, name_taken, taken@, stamp@),
{
    if !dir_exists || !name_taken {
        return copy_str(filename);
    }
    let mut i: usize = 0;
    while i < taken.len()
        invariant
            i <= taken@.len(),
            taken@.len() < u64::MAX,
            dir_exists && name_taken,
            first_free(taken@.take(i as int)) is None,
        decreases taken@.len() - i,
    {
        assert(taken@.take(i + 1).drop_last() =~= taken@.take(i as int));
        if !taken[i] {
            proof {
                assert(first_free(taken@.take(i + 1)) == Some(i as nat));
                lemma_first_free_prefix(taken@, (i + 1) as nat);
                assert(first_free(taken@) == Some(i as nat));
            }
            let r = numbered_candidate(filename, (i + 1) as u64);
            assert(r@ == numbered_name(filename@, (i + 1) as nat));
            assert(upload_name(filename@, dir_exists, name_taken, taken@, stamp@) == numbered_name(
                filename@,
                (i + 1) as nat,
            ));
            return r;
        }
        i = i + 1;
    }
    assert(taken@.take(i as int) =~= taken@);
    stamped_candidate(filename, stamp)
}

/// A free position found in a prefix is the first free one of the whole.
pub proof fn lemma_first_free_prefix(taken: Seq<bool>, k: nat)
    requires
        k <= taken.len(),
        first_free(taken.take(k as int)) is Some,
    ensures
        first_free(taken) == first_free(taken.take(k as int)),
    decreases taken.len() - k,
{
    if k < taken.len() {
        assert(taken.take((k + 1) as int).drop_last() =~= taken.take(k as int));
        lemma_first_free_prefix(taken, k + 1);
    } else {
        assert(taken.take(k as int) =~= taken);
    }
}

/// A name for an uploaded file that is not taken in directory `base_path`:
/// the name itself when it is free (or the directory is missing), else
/// `name(1).ext` up to `name(49).ext`, else `name_<time>.ext`. What is
/// taken is read from the disk, so the answers are not claimed; the name
/// is the one `upload_name` gives for them.
pub fn generate_unique_filename(base_path: &str, filename: &str) -> (res: String)
    ensures
        exists|dir_exists: bool, name_taken: bool, taken: Seq<bool>, secs: nat, nanos: nat|
            taken.len() <= 49 && res@ == upload_name(filename@, dir_exists, name_taken, taken, upload_stamp(secs, nanos)),
{
    let dir_exists = path_exists(base_path);
    let name_taken = if dir_exists {
        let path = path_join(base_path, filename);
        path_exists(path.as_str())
    } else {
        false
    };
    let mut taken: Vec<bool> = Vec::new();
    if dir_exists && name_taken {
        let mut i: u64 = 1;
        let mut found = false;
        while i < 50 && !found
            invariant
                1 <= i <= 50,
                taken@.len() == i - 1,
            decreases 50 - i,
        {
            let probe = numbered_probe(base_path, filename, i);
            let t = path_exists(probe.as_str());
            taken.push(t);
            found = !t;
            i = i + 1;
        }
    }
    let (secs, nanos) = match since_epoch(&system_now()) {
        Some(p) => p,
        None => (0, 0),
    };
    let stamp = upload_stamp_text(secs, nanos);
    let res = choose_upload_name(filename, dir_exists, name_taken, &taken, stamp.as_str());
    assert(res@ == upload_name(filename@, dir_exists, name_taken, taken@, upload_stamp(secs as nat, nanos as nat)));
    res
}

} // verus!
