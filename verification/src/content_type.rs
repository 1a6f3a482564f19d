//! Media types: the registry that maps each kind of content to its MIME
//! string and each file extension to a kind of content.

use vstd::prelude::*;
use vstd::string::StringExecFns;

use crate::text::same_text;

verus! {

/// A kind of content that a response can announce.
#[derive(Clone, Copy, Debug, PartialEq, Eq, Structural)]
pub enum ContentType {
    /// Text: `text/plain`, the kind of any content that no extension names.
    TextPlain,
    /// Hyper Text Markup Language: `text/html`, extension `html`.
    Html,
    /// AAC audio: `audio/aac`, extension `aac`.
    Aac,
    /// AbiWord document: `application/x-abiword`, extension `abw`.
    Abw,
    /// Animated Portable Network Graphics (APNG) image: `image/apng`, extension `apng`.
    Apng,
    /// Archive document (multiple files embedded): `application/x-freearc`, extension `arc`.
    Arc,
    /// AVIF image: `image/avif`, extension `avif`.
    Avif,
    /// AVI: Audio Video Interleave: `video/x-msvideo`, extension `avi`.
    Avi,
    /// Amazon Kindle eBook format: `application/vnd.amazon.ebook`, extension `azw`.
    Azw,
    /// Any kind of binary data: `application/octet-stream`, extension `bin`.
    Bin,
    /// Windows OS/2 Bitmap Graphics: `image/bmp`, extension `bmp`.
    Bmp,
    /// BZip archive: `application/x-bzip`, extension `bz`.
    Bz,
    /// BZip2 archive: `application/x-bzip2`, extension `bz2`.
    Bz2,
    /// CD audio: `application/x-cdf`, extension `cda`.
    Cda,
    /// C-Shell script: `application/x-csh`, extension `csh`.
    Csh,
    /// Cascading Style Sheets (CSS): `text/css`, extension `css`.
    Css,
    /// Comma-separated values (CSV): `text/csv`, extension `csv`.
    Csv,
    /// Microsoft Word: `application/msword`, extension `doc`.
    Doc,
    /// Microsoft Word (OpenXML): `application/vnd.openxmlformats-officedocument.wordprocessingml.document`, extension `docx`.
    Docx,
    /// MS Embedded OpenType fonts: `application/vnd.ms-fontobject`, extension `eot`.
    Eot,
    /// Electronic publication (EPUB): `application/epub+zip`, extension `epub`.
    Epub,
    /// GZip Compressed Archive: `application/gzip`, extension `gz`.
    Gz,
    /// Graphics Interchange Format (GIF): `image/gif`, extension `gif`.
    Gif,
    /// HyperText Markup Language (HTML): `text/html`, extension `htm`.
    Htm,
    /// Icon format: `image/vnd.microsoft.icon`, extension `ico`.
    Ico,
    /// iCalendar format: `text/calendar`, extension `ics`.
    Ics,
    /// Java Archive (JAR): `application/java-archive`, extension `jar`.
    Jar,
    /// JPEG images: `image/jpeg`, extension `jpeg`.
    Jpeg,
    /// JavaScript: `text/javascript`, extension `js`.
    Js,
    ///         JSON format: `application/json`, extension `json`.
    Json,
    ///     JSON-LD format: `application/ld+json`, extension `jsonld`.
    Jsonld,
    /// Musical Instrument Digital Interface (MIDI): `audio/midi, audio/x-midi`, extension `mid`.
    Mid,
    ///         JavaScript module: `text/javascript`, extension `mjs`.
    Mjs,
    /// MP3 audio: `audio/mpeg`, extension `mp3`.
    Mp3,
    /// MP4 video: `video/mp4`, extension `mp4`.
    Mp4,
    /// MPEG Video: `video/mpeg`, extension `mpeg`.
    Mpeg,
    /// Apple Installer Package: `application/vnd.apple.installer+xml`, extension `mpkg`.
    Mpkg,
    /// OpenDocument presentation document: `application/vnd.oasis.opendocument.presentation`, extension `odp`.
    Odp,
    /// OpenDocument spreadsheet document: `application/vnd.oasis.opendocument.spreadsheet`, extension `ods`.
    Ods,
    /// OpenDocument text document: `application/vnd.oasis.opendocument.text`, extension `odt`.
    Odt,
    /// OGG audio: `audio/ogg`, extension `oga`.
    Oga,
    /// OGG video: `video/ogg`, extension `ogv`.
    Ogv,
    /// OGG: `application/ogg`, extension `ogx`.
    Ogx,
    /// Opus audio: `audio/opus`, extension `opus`.
    Opus,
    /// OpenType font: `font/otf`, extension `otf`.
    Otf,
    /// Portable Network Graphics: `image/png`, extension `png`.
    Png,
    /// Adobe Portable Document Format (PDF): `application/pdf`, extension `pdf`.
    Pdf,
    /// Hypertext Preprocessor (Personal Home Page): `application/x-httpd-php`, extension `php`.
    Php,
    /// Microsoft PowerPoint: `application/vnd.ms-powerpoint`, extension `ppt`.
    Ppt,
    /// Microsoft PowerPoint (OpenXML): `application/vnd.openxmlformats-officedocument.presentationml.presentation`, extension `pptx`.
    Pptx,
    /// RAR archive: `application/vnd.rar`, extension `rar`.
    Rar,
    /// Rich Text Format (RTF): `application/rtf`, extension `rtf`.
    Rtf,
    /// Bourne shell script: `application/x-sh`, extension `sh`.
    Sh,
    /// Scalable Vector Graphics (SVG): `image/svg+xml`, extension `svg`.
    Svg,
    /// Tape Archive (TAR): `application/x-tar`, extension `tar`.
    Tar,
    /// Tagged Image File Format (TIFF): `image/tiff`, extension `tif`.
    Tif,
    /// MPEG transport stream: `video/mp2t`, extension `ts`.
    Ts,
    /// TrueType Font: `font/ttf`, extension `ttf`.
    Ttf,
    /// Text, (generally ASCII or ISO 8859-n): `text/plain`, extension `txt`.
    Txt,
    /// Microsoft Visio: `application/vnd.visio`, extension `vsd`.
    Vsd,
    /// Waveform Audio Format: `audio/wav`, extension `wav`.
    Wav,
    /// WEBM audio: `audio/webm`, extension `weba`.
    Weba,
    /// WEBM video: `video/webm`, extension `webm`.
    Webm,
    /// WEBP image: `image/webp`, extension `webp`.
    Webp,
    /// Web Open Font Format (WOFF): `font/woff`, extension `woff`.
    Woff,
    /// Web Open Font Format (WOFF): `font/woff2`, extension `woff2`.
    Woff2,
    /// XHTML: `application/xhtml+xml`, extension `xhtml`.
    Xhtml,
    /// Microsoft Excel: `application/vnd.ms-excel`, extension `xls`.
    Xls,
    /// Microsoft Excel (OpenXML): `application/vnd.openxmlformats-officedocument.spreadsheetml.sheet`, extension `xlsx`.
    Xlsx,
    /// XML: `application/xml`, extension `xml`.
    Xml,
    /// XUL: `application/vnd.mozilla.xul+xml`, extension `xul`.
    Xul,
    /// ZIP archive: `application/zip`, extension `zip`.
    Zip,
    /// 3GPP audio/video container: `video/3gpp; audio/3gpp if it doesn't contain video`, extension `3gp`.
    _3gp,
    /// 3GPP2 audio/video container: `video/3gpp2; audio/3gpp2 if it doesn't contain video`, extension `3g2`.
    _3g2,
    /// 7-zip archive: `application/x-7z-compressed`, extension `7z`.
    _7z,
}

impl ContentType {
    /// The MIME string of this kind of content.
    pub open spec fn mime(self) -> Seq<char> {
        match self {
            ContentType::TextPlain => "text/plain"@,
            ContentType::Html => "text/html"@,
            ContentType::Aac => "audio/aac"@,
            ContentType::Abw => "application/x-abiword"@,
            ContentType::Apng => "image/apng"@,
            ContentType::Arc => "application/x-freearc"@,
            ContentType::Avif => "image/avif"@,
            ContentType::Avi => "video/x-msvideo"@,
            ContentType::Azw => "application/vnd.amazon.ebook"@,
            ContentType::Bin => "application/octet-stream"@,
            ContentType::Bmp => "image/bmp"@,
            ContentType::Bz => "application/x-bzip"@,
            ContentType::Bz2 => "application/x-bzip2"@,
            ContentType::Cda => "application/x-cdf"@,
            ContentType::Csh => "application/x-csh"@,
            ContentType::Css => "text/css"@,
            ContentType::Csv => "text/csv"@,
            ContentType::Doc => "application/msword"@,
            ContentType::Docx => "application/vnd.openxmlformats-officedocument.wordprocessingml.document"@,
            ContentType::Eot => "application/vnd.ms-fontobject"@,
            ContentType::Epub => "application/epub+zip"@,
            ContentType::Gz => "application/gzip"@,
            ContentType::Gif => "image/gif"@,
            ContentType::Htm => "text/html"@,
            ContentType::Ico => "image/vnd.microsoft.icon"@,
            ContentType::Ics => "text/calendar"@,
            ContentType::Jar => "application/java-archive"@,
            ContentType::Jpeg => "image/jpeg"@,
            ContentType::Js => "text/javascript"@,
            ContentType::Json => "application/json"@,
            ContentType::Jsonld => "application/ld+json"@,
            ContentType::Mid => "audio/midi, audio/x-midi"@,
            ContentType::Mjs => "text/javascript"@,
            ContentType::Mp3 => "audio/mpeg"@,
            ContentType::Mp4 => "video/mp4"@,
            ContentType::Mpeg => "video/mpeg"@,
            ContentType::Mpkg => "application/vnd.apple.installer+xml"@,
            ContentType::Odp => "application/vnd.oasis.opendocument.presentation"@,
            ContentType::Ods => "application/vnd.oasis.opendocument.spreadsheet"@,
            ContentType::Odt => "application/vnd.oasis.opendocument.text"@,
            ContentType::Oga => "audio/ogg"@,
            ContentType::Ogv => "video/ogg"@,
            ContentType::Ogx => "application/ogg"@,
            ContentType::Opus => "audio/opus"@,
            ContentType::Otf => "font/otf"@,
            ContentType::Png => "image/png"@,
            ContentType::Pdf => "application/pdf"@,
            ContentType::Php => "application/x-httpd-php"@,
            ContentType::Ppt => "application/vnd.ms-powerpoint"@,
            ContentType::Pptx => "application/vnd.openxmlformats-officedocument.presentationml.presentation"@,
            ContentType::Rar => "application/vnd.rar"@,
            ContentType::Rtf => "application/rtf"@,
            ContentType::Sh => "application/x-sh"@,
            ContentType::Svg => "image/svg+xml"@,
            ContentType::Tar => "application/x-tar"@,
            ContentType::Tif => "image/tiff"@,
            ContentType::Ts => "video/mp2t"@,
            ContentType::Ttf => "font/ttf"@,
            ContentType::Txt => "text/plain"@,
            ContentType::Vsd => "application/vnd.visio"@,
            ContentType::Wav => "audio/wav"@,
            ContentType::Weba => "audio/webm"@,
            ContentType::Webm => "video/webm"@,
            ContentType::Webp => "image/webp"@,
            ContentType::Woff => "font/woff"@,
            ContentType::Woff2 => "font/woff2"@,
            ContentType::Xhtml => "application/xhtml+xml"@,
            ContentType::Xls => "application/vnd.ms-excel"@,
            ContentType::Xlsx => "application/vnd.openxmlformats-officedocument.spreadsheetml.sheet"@,
            ContentType::Xml => "application/xml"@,
            ContentType::Xul => "application/vnd.mozilla.xul+xml"@,
            ContentType::Zip => "application/zip"@,
            ContentType::_3gp => "video/3gpp; audio/3gpp if it doesn't contain video"@,
            ContentType::_3g2 => "video/3gpp2; audio/3gpp2 if it doesn't contain video"@,
            ContentType::_7z => "application/x-7z-compressed"@,
        }
    }

    /// The file extension that names this kind of content, if one does.
    pub open spec fn extension(self) -> Option<Seq<char>> {
        match self {
            ContentType::TextPlain => None,
            ContentType::Html => Some("html"@),
            ContentType::Aac => Some("aac"@),
            ContentType::Abw => Some("abw"@),
            ContentType::Apng => Some("apng"@),
            ContentType::Arc => Some("arc"@),
            ContentType::Avif => Some("avif"@),
            ContentType::Avi => Some("avi"@),
            ContentType::Azw => Some("azw"@),
            ContentType::Bin => Some("bin"@),
            ContentType::Bmp => Some("bmp"@),
            ContentType::Bz => Some("bz"@),
            ContentType::Bz2 => Some("bz2"@),
            ContentType::Cda => Some("cda"@),
            ContentType::Csh => Some("csh"@),
            ContentType::Css => Some("css"@),
            ContentType::Csv => Some("csv"@),
            ContentType::Doc => Some("doc"@),
            ContentType::Docx => Some("docx"@),
            ContentType::Eot => Some("eot"@),
            ContentType::Epub => Some("epub"@),
            ContentType::Gz => Some("gz"@),
            ContentType::Gif => Some("gif"@),
            ContentType::Htm => Some("htm"@),
            ContentType::Ico => Some("ico"@),
            ContentType::Ics => Some("ics"@),
            ContentType::Jar => Some("jar"@),
            ContentType::Jpeg => Some("jpeg"@),
            ContentType::Js => Some("js"@),
            ContentType::Json => Some("json"@),
            ContentType::Jsonld => Some("jsonld"@),
            ContentType::Mid => Some("mid"@),
            ContentType::Mjs => Some("mjs"@),
            ContentType::Mp3 => Some("mp3"@),
            ContentType::Mp4 => Some("mp4"@),
            ContentType::Mpeg => Some("mpeg"@),
            ContentType::Mpkg => Some("mpkg"@),
            ContentType::Odp => Some("odp"@),
            ContentType::Ods => Some("ods"@),
            ContentType::Odt => Some("odt"@),
            ContentType::Oga => Some("oga"@),
            ContentType::Ogv => Some("ogv"@),
            ContentType::Ogx => Some("ogx"@),
            ContentType::Opus => Some("opus"@),
            ContentType::Otf => Some("otf"@),
            ContentType::Png => Some("png"@),
            ContentType::Pdf => Some("pdf"@),
            ContentType::Php => Some("php"@),
            ContentType::Ppt => Some("ppt"@),
            ContentType::Pptx => Some("pptx"@),
            ContentType::Rar => Some("rar"@),
            ContentType::Rtf => Some("rtf"@),
            ContentType::Sh => Some("sh"@),
            ContentType::Svg => Some("svg"@),
            ContentType::Tar => Some("tar"@),
            ContentType::Tif => Some("tif"@),
            ContentType::Ts => Some("ts"@),
            ContentType::Ttf => Some("ttf"@),
            ContentType::Txt => Some("txt"@),
            ContentType::Vsd => Some("vsd"@),
            ContentType::Wav => Some("wav"@),
            ContentType::Weba => Some("weba"@),
            ContentType::Webm => Some("webm"@),
            ContentType::Webp => Some("webp"@),
            ContentType::Woff => Some("woff"@),
            ContentType::Woff2 => Some("woff2"@),
            ContentType::Xhtml => Some("xhtml"@),
            ContentType::Xls => Some("xls"@),
            ContentType::Xlsx => Some("xlsx"@),
            ContentType::Xml => Some("xml"@),
            ContentType::Xul => Some("xul"@),
            ContentType::Zip => Some("zip"@),
            ContentType::_3gp => Some("3gp"@),
            ContentType::_3g2 => Some("3g2"@),
            ContentType::_7z => Some("7z"@),
        }
    }

    /// The kind of content that the file extension `ext` names, plain text
    /// where it names none.
    pub open spec fn of_extension(ext: Seq<char>) -> ContentType {
        if ext == "aac"@ {
            ContentType::Aac
        } else if ext == "abw"@ {
            ContentType::Abw
        } else if ext == "apng"@ {
            ContentType::Apng
        } else if ext == "arc"@ {
            ContentType::Arc
        } else if ext == "avif"@ {
            ContentType::Avif
        } else if ext == "avi"@ {
            ContentType::Avi
        } else if ext == "azw"@ {
            ContentType::Azw
        } else if ext == "bin"@ {
            ContentType::Bin
        } else if ext == "bmp"@ {
            ContentType::Bmp
        } else if ext == "bz"@ {
            ContentType::Bz
        } else if ext == "bz2"@ {
            ContentType::Bz2
        } else if ext == "cda"@ {
            ContentType::Cda
        } else if ext == "csh"@ {
            ContentType::Csh
        } else if ext == "css"@ {
            ContentType::Css
        } else if ext == "csv"@ {
            ContentType::Csv
        } else if ext == "doc"@ {
            ContentType::Doc
        } else if ext == "docx"@ {
            ContentType::Docx
        } else if ext == "eot"@ {
            ContentType::Eot
        } else if ext == "epub"@ {
            ContentType::Epub
        } else if ext == "gz"@ {
            ContentType::Gz
        } else if ext == "gif"@ {
            ContentType::Gif
        } else if ext == "htm"@ {
            ContentType::Htm
        } else if ext == "html"@ {
            ContentType::Html
        } else if ext == "ico"@ {
            ContentType::Ico
        } else if ext == "ics"@ {
            ContentType::Ics
        } else if ext == "jar"@ {
            ContentType::Jar
        } else if ext == "jpeg"@ {
            ContentType::Jpeg
        } else if ext == "js"@ {
            ContentType::Js
        } else if ext == "json"@ {
            ContentType::Json
        } else if ext == "jsonld"@ {
            ContentType::Jsonld
        } else if ext == "mid"@ {
            ContentType::Mid
        } else if ext == "mjs"@ {
            ContentType::Mjs
        } else if ext == "mp3"@ {
            ContentType::Mp3
        } else if ext == "mp4"@ {
            ContentType::Mp4
        } else if ext == "mpeg"@ {
            ContentType::Mpeg
        } else if ext == "mpkg"@ {
            ContentType::Mpkg
        } else if ext == "odp"@ {
            ContentType::Odp
        } else if ext == "ods"@ {
            ContentType::Ods
        } else if ext == "odt"@ {
            ContentType::Odt
        } else if ext == "oga"@ {
            ContentType::Oga
        } else if ext == "ogv"@ {
            ContentType::Ogv
        } else if ext == "ogx"@ {
            ContentType::Ogx
        } else if ext == "opus"@ {
            ContentType::Opus
        } else if ext == "otf"@ {
            ContentType::Otf
        } else if ext == "png"@ {
            ContentType::Png
        } else if ext == "pdf"@ {
            ContentType::Pdf
        } else if ext == "php"@ {
            ContentType::Php
        } else if ext == "ppt"@ {
            ContentType::Ppt
        } else if ext == "pptx"@ {
            ContentType::Pptx
        } else if ext == "rar"@ {
            ContentType::Rar
        } else if ext == "rtf"@ {
            ContentType::Rtf
        } else if ext == "sh"@ {
            ContentType::Sh
        } else if ext == "svg"@ {
            ContentType::Svg
        } else if ext == "tar"@ {
            ContentType::Tar
        } else if ext == "tif"@ {
            ContentType::Tif
        } else if ext == "ts"@ {
            ContentType::Ts
        } else if ext == "ttf"@ {
            ContentType::Ttf
        } else if ext == "txt"@ {
            ContentType::Txt
        } else if ext == "vsd"@ {
            ContentType::Vsd
        } else if ext == "wav"@ {
            ContentType::Wav
        } else if ext == "weba"@ {
            ContentType::Weba
        } else if ext == "webm"@ {
            ContentType::Webm
        } else if ext == "webp"@ {
            ContentType::Webp
        } else if ext == "woff"@ {
            ContentType::Woff
        } else if ext == "woff2"@ {
            ContentType::Woff2
        } else if ext == "xhtml"@ {
            ContentType::Xhtml
        } else if ext == "xls"@ {
            ContentType::Xls
        } else if ext == "xlsx"@ {
            ContentType::Xlsx
        } else if ext == "xml"@ {
            ContentType::Xml
        } else if ext == "xul"@ {
            ContentType::Xul
        } else if ext == "zip"@ {
            ContentType::Zip
        } else if ext == "3gp"@ {
            ContentType::_3gp
        } else if ext == "3g2"@ {
            ContentType::_3g2
        } else if ext == "7z"@ {
            ContentType::_7z
        } else {
            ContentType::TextPlain
        }
    }

    /// What a `Content-Type` header says of this kind of content: its MIME
    /// string, then the character set, which is always UTF-8.
    pub open spec fn rendered(self) -> Seq<char> {
        self.mime() + "; charset=utf-8"@
    }

    /// The kind of content that a file extension names. An extension that the
    /// registry does not know, the empty one among them, gives plain text.
    pub fn from_ext(extension: &str) -> (kind: ContentType)
        ensures
            kind == ContentType::of_extension(extension@),
    {
        if same_text(extension, "aac") {
            ContentType::Aac
        } else if same_text(extension, "abw") {
            ContentType::Abw
        } else if same_text(extension, "apng") {
            ContentType::Apng
        } else if same_text(extension, "arc") {
            ContentType::Arc
        } else if same_text(extension, "avif") {
            ContentType::Avif
        } else if same_text(extension, "avi") {
            ContentType::Avi
        } else if same_text(extension, "azw") {
            ContentType::Azw
        } else if same_text(extension, "bin") {
            ContentType::Bin
        } else if same_text(extension, "bmp") {
            ContentType::Bmp
        } else if same_text(extension, "bz") {
            ContentType::Bz
        } else if same_text(extension, "bz2") {
            ContentType::Bz2
        } else if same_text(extension, "cda") {
            ContentType::Cda
        } else if same_text(extension, "csh") {
            ContentType::Csh
        } else if same_text(extension, "css") {
            ContentType::Css
        } else if same_text(extension, "csv") {
            ContentType::Csv
        } else if same_text(extension, "doc") {
            ContentType::Doc
        } else if same_text(extension, "docx") {
            ContentType::Docx
        } else if same_text(extension, "eot") {
            ContentType::Eot
        } else if same_text(extension, "epub") {
            ContentType::Epub
        } else if same_text(extension, "gz") {
            ContentType::Gz
        } else if same_text(extension, "gif") {
            ContentType::Gif
        } else if same_text(extension, "htm") {
            ContentType::Htm
        } else if same_text(extension, "html") {
            ContentType::Html
        } else if same_text(extension, "ico") {
            ContentType::Ico
        } else if same_text(extension, "ics") {
            ContentType::Ics
        } else if same_text(extension, "jar") {
            ContentType::Jar
        } else if same_text(extension, "jpeg") {
            ContentType::Jpeg
        } else if same_text(extension, "js") {
            ContentType::Js
        } else if same_text(extension, "json") {
            ContentType::Json
        } else if same_text(extension, "jsonld") {
            ContentType::Jsonld
        } else if same_text(extension, "mid") {
            ContentType::Mid
        } else if same_text(extension, "mjs") {
            ContentType::Mjs
        } else if same_text(extension, "mp3") {
            ContentType::Mp3
        } else if same_text(extension, "mp4") {
            ContentType::Mp4
        } else if same_text(extension, "mpeg") {
            ContentType::Mpeg
        } else if same_text(extension, "mpkg") {
            ContentType::Mpkg
        } else if same_text(extension, "odp") {
            ContentType::Odp
        } else if same_text(extension, "ods") {
            ContentType::Ods
        } else if same_text(extension, "odt") {
            ContentType::Odt
        } else if same_text(extension, "oga") {
            ContentType::Oga
        } else if same_text(extension, "ogv") {
            ContentType::Ogv
        } else if same_text(extension, "ogx") {
            ContentType::Ogx
        } else if same_text(extension, "opus") {
            ContentType::Opus
        } else if same_text(extension, "otf") {
            ContentType::Otf
        } else if same_text(extension, "png") {
            ContentType::Png
        } else if same_text(extension, "pdf") {
            ContentType::Pdf
        } else if same_text(extension, "php") {
            ContentType::Php
        } else if same_text(extension, "ppt") {
            ContentType::Ppt
        } else if same_text(extension, "pptx") {
            ContentType::Pptx
        } else if same_text(extension, "rar") {
            ContentType::Rar
        } else if same_text(extension, "rtf") {
            ContentType::Rtf
        } else if same_text(extension, "sh") {
            ContentType::Sh
        } else if same_text(extension, "svg") {
            ContentType::Svg
        } else if same_text(extension, "tar") {
            ContentType::Tar
        } else if same_text(extension, "tif") {
            ContentType::Tif
        } else if same_text(extension, "ts") {
            ContentType::Ts
        } else if same_text(extension, "ttf") {
            ContentType::Ttf
        } else if same_text(extension, "txt") {
            ContentType::Txt
        } else if same_text(extension, "vsd") {
            ContentType::Vsd
        } else if same_text(extension, "wav") {
            ContentType::Wav
        } else if same_text(extension, "weba") {
            ContentType::Weba
        } else if same_text(extension, "webm") {
            ContentType::Webm
        } else if same_text(extension, "webp") {
            ContentType::Webp
        } else if same_text(extension, "woff") {
            ContentType::Woff
        } else if same_text(extension, "woff2") {
            ContentType::Woff2
        } else if same_text(extension, "xhtml") {
            ContentType::Xhtml
        } else if same_text(extension, "xls") {
            ContentType::Xls
        } else if same_text(extension, "xlsx") {
            ContentType::Xlsx
        } else if same_text(extension, "xml") {
            ContentType::Xml
        } else if same_text(extension, "xul") {
            ContentType::Xul
        } else if same_text(extension, "zip") {
            ContentType::Zip
        } else if same_text(extension, "3gp") {
            ContentType::_3gp
        } else if same_text(extension, "3g2") {
            ContentType::_3g2
        } else if same_text(extension, "7z") {
            ContentType::_7z
        } else {
            ContentType::TextPlain
        }
    }

    /// The MIME string of this kind of content.
    pub fn mime_str(&self) -> (m: &'static str)
        ensures
            m@ == self.mime(),
    {
        match self {
            ContentType::TextPlain => "text/plain",
            ContentType::Html => "text/html",
            ContentType::Aac => "audio/aac",
            ContentType::Abw => "application/x-abiword",
            ContentType::Apng => "image/apng",
            ContentType::Arc => "application/x-freearc",
            ContentType::Avif => "image/avif",
            ContentType::Avi => "video/x-msvideo",
            ContentType::Azw => "application/vnd.amazon.ebook",
            ContentType::Bin => "application/octet-stream",
            ContentType::Bmp => "image/bmp",
            ContentType::Bz => "application/x-bzip",
            ContentType::Bz2 => "application/x-bzip2",
            ContentType::Cda => "application/x-cdf",
            ContentType::Csh => "application/x-csh",
            ContentType::Css => "text/css",
            ContentType::Csv => "text/csv",
            ContentType::Doc => "application/msword",
            ContentType::Docx => "application/vnd.openxmlformats-officedocument.wordprocessingml.document",
            ContentType::Eot => "application/vnd.ms-fontobject",
            ContentType::Epub => "application/epub+zip",
            ContentType::Gz => "application/gzip",
            ContentType::Gif => "image/gif",
            ContentType::Htm => "text/html",
            ContentType::Ico => "image/vnd.microsoft.icon",
            ContentType::Ics => "text/calendar",
            ContentType::Jar => "application/java-archive",
            ContentType::Jpeg => "image/jpeg",
            ContentType::Js => "text/javascript",
            ContentType::Json => "application/json",
            ContentType::Jsonld => "application/ld+json",
            ContentType::Mid => "audio/midi, audio/x-midi",
            ContentType::Mjs => "text/javascript",
            ContentType::Mp3 => "audio/mpeg",
            ContentType::Mp4 => "video/mp4",
            ContentType::Mpeg => "video/mpeg",
            ContentType::Mpkg => "application/vnd.apple.installer+xml",
            ContentType::Odp => "application/vnd.oasis.opendocument.presentation",
            ContentType::Ods => "application/vnd.oasis.opendocument.spreadsheet",
            ContentType::Odt => "application/vnd.oasis.opendocument.text",
            ContentType::Oga => "audio/ogg",
            ContentType::Ogv => "video/ogg",
            ContentType::Ogx => "application/ogg",
            ContentType::Opus => "audio/opus",
            ContentType::Otf => "font/otf",
            ContentType::Png => "image/png",
            ContentType::Pdf => "application/pdf",
            ContentType::Php => "application/x-httpd-php",
            ContentType::Ppt => "application/vnd.ms-powerpoint",
            ContentType::Pptx => "application/vnd.openxmlformats-officedocument.presentationml.presentation",
            ContentType::Rar => "application/vnd.rar",
            ContentType::Rtf => "application/rtf",
            ContentType::Sh => "application/x-sh",
            ContentType::Svg => "image/svg+xml",
            ContentType::Tar => "application/x-tar",
            ContentType::Tif => "image/tiff",
            ContentType::Ts => "video/mp2t",
            ContentType::Ttf => "font/ttf",
            ContentType::Txt => "text/plain",
            ContentType::Vsd => "application/vnd.visio",
            ContentType::Wav => "audio/wav",
            ContentType::Weba => "audio/webm",
            ContentType::Webm => "video/webm",
            ContentType::Webp => "image/webp",
            ContentType::Woff => "font/woff",
            ContentType::Woff2 => "font/woff2",
            ContentType::Xhtml => "application/xhtml+xml",
            ContentType::Xls => "application/vnd.ms-excel",
            ContentType::Xlsx => "application/vnd.openxmlformats-officedocument.spreadsheetml.sheet",
            ContentType::Xml => "application/xml",
            ContentType::Xul => "application/vnd.mozilla.xul+xml",
            ContentType::Zip => "application/zip",
            ContentType::_3gp => "video/3gpp; audio/3gpp if it doesn't contain video",
            ContentType::_3g2 => "video/3gpp2; audio/3gpp2 if it doesn't contain video",
            ContentType::_7z => "application/x-7z-compressed",
        }
    }

    /// The text of a `Content-Type` header for this kind of content.
    pub fn to_string(&self) -> (s: String)
        ensures
            s@ == self.rendered(),
    {
        let mut s = self.mime_str().to_owned();
        s.append("; charset=utf-8");
        s
    }
}

/// An extension that the registry knows gives a kind of content that carries
/// that extension; any other gives plain text.
pub proof fn lemma_of_extension(ext: Seq<char>)
    ensures
        ContentType::of_extension(ext).extension() == Some(ext) || ContentType::of_extension(ext)
            == ContentType::TextPlain,
        ContentType::of_extension(ext) == ContentType::TextPlain <==> forall|kind: ContentType|
            kind.extension() != Some(ext),
{
}

} // verus!
