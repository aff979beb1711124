//! The dynamically generated landing page.  It references the three
//! artifact paths with the default payload pre-filled; the page's script
//! rewrites those references as the user edits the URL field.

use vstd::prelude::*;

verus! {

/// The landing page markup.
pub const INDEX_HTML: &'static str = "<!DOCTYPE html>\
<html lang=\"de-DE\">\
<head>\
<meta charset=\"UTF-8\">\
<title>QR-Code-Generierer</title>\
<meta name=\"viewport\" content=\"width=device-width, initial-scale=1\">\
<meta http-equiv=\"X-UA-Compatible\" content=\"IE=edge\">\
<meta http-equiv=\"expires\" content=\"Sat, 01 Dec 2001 00:00:00 GMT\">\
<meta http-equiv=\"cache-control\" content=\"no-cache, no-store, must-revalidate\">\
<meta http-equiv=\"pragma\" content=\"no-cache\">\
<link rel=\"stylesheet\" href=\"./modern-normalize.css\">\
<link rel=\"stylesheet\" href=\"./style.css\">\
</head>\
<body>\
<h1>QR-Code-Generierer</h1>\
<form id=\"form\">\
<fieldset>\
<div>\
<label for=\"url\">URL:</label> \
<label>\
<input type=\"url\" value=\"https://www.vetmed.fu-berlin.de/\" autocomplete=\"off\" spellcheck=\"off\" id=\"url\">\
</label>\
</div>\
</fieldset>\
</form>\
<div style=\"text-align: center\">\
<div class=\"grid\">\
<p style=\"margin-left: auto;\">SVG:<br>\
<a href=\"./kurzlink.svg?q=https://www.vetmed.fu-berlin.de/\" download=\"kurzlink.svg\" title=\"Klicken um SVG zu speichern.\" id=\"svg\">\
<img src=\"./kurzlink.svg?q=https://www.vetmed.fu-berlin.de/\" alt=\"SVG\">\
</a>\
</p>\
<p>PNG:<br>\
<a href=\"./kurzlink.png?q=https://www.vetmed.fu-berlin.de/\" download=\"kurzlink.png\" title=\"Klicken um PNG zu speichern.\" id=\"png\">\
<img src=\"./kurzlink.svg?q=https://www.vetmed.fu-berlin.de/\" alt=\"PNG\">\
</a>\
</p>\
<p style=\"margin-right: auto;\">PDF:<br>\
<a href=\"./kurzlink.pdf?q=https://www.vetmed.fu-berlin.de/\" download=\"kurzlink.pdf\" title=\"Klicken um PDF zu speichern.\" id=\"pdf\">\
<img src=\"./kurzlink.svg?q=https://www.vetmed.fu-berlin.de/\" alt=\"PDF\">\
</a>\
</p>\
</div>\
<p class=\"hint\">Zum Speichern auf das Bild klicken und einen Moment warten. Wenn m\u{f6}glich, sollten Sie PDFs oder SVGs bevorzugen.</p>\
</div>\
<script async defer src=\"./script.js\"></script>\
</body>\
</html>";

} // verus!
