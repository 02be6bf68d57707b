use vstd::prelude::*;

verus! {

/// Everything that precedes the title element: document type, root element and the
/// two `meta` declarations.
pub const HEAD_OPEN: &'static str = "<!DOCTYPE html>\n<html lang=\"en\">\n<head>\n    <meta charset=\"UTF-8\">\n    <meta name=\"viewport\" content=\"width=device-width, initial-scale=1.0\">\n    ";

/// What follows the title element: the embedded dark style sheet, the end of the
/// head, and the body down to the opening of the date line.
pub const BODY_OPEN: &'static str = "\n    <style>\n        :root {\n            --background: #121212;\n            --text: rgba(255, 255, 255, 0.87);\n            --text-secondary: rgba(255, 255, 255, 0.6);\n            --max-width: 800px;\n            --spacing: 2rem;\n        }\n\n        * {\n            margin: 0;\n            padding: 0;\n            box-sizing: border-box;\n        }\n\n        body {\n            font-family: -apple-system, BlinkMacSystemFont, \"Segoe UI\", Roboto, Oxygen-Sans, Ubuntu, Cantarell, \"Helvetica Neue\", sans-serif;\n            background: var(--background);\n            color: var(--text);\n            line-height: 1.6;\n            padding: var(--spacing);\n        }\n\n        .container {\n            max-width: var(--max-width);\n            margin: 0 auto;\n            padding: var(--spacing);\n        }\n\n        .date {\n            color: var(--text-secondary);\n            margin-bottom: 1rem;\n            font-size: 1rem;\n        }\n\n        h1 {\n            font-size: 2.5rem;\n            font-weight: 600;\n            margin-bottom: 0.5rem;\n            line-height: 1.2;\n        }\n\n        h2 {\n            font-size: 1.75rem;\n            color: var(--text);\n            margin: 2rem 0 1rem;\n        }\n\n        p {\n            margin-bottom: 1.5rem;\n            font-size: 1.1rem;\n        }\n\n        a {\n            color: #3B82F6;\n            text-decoration: none;\n        }\n\n        a:hover {\n            text-decoration: underline;\n        }\n\n        code {\n            font-family: \"SF Mono\", \"Segoe UI Mono\", \"Roboto Mono\", Menlo, Courier, monospace;\n            background: rgba(255, 255, 255, 0.1);\n            padding: 0.2em 0.4em;\n            border-radius: 3px;\n            font-size: 0.9em;\n        }\n\n        pre {\n            background: rgba(255, 255, 255, 0.1);\n            padding: 1rem;\n            border-radius: 4px;\n            overflow-x: auto;\n            margin: 1.5rem 0;\n        }\n\n        pre code {\n            background: none;\n            padding: 0;\n        }\n\n        img {\n            max-width: 100%;\n            height: auto;\n            border-radius: 8px;\n            margin: 1.5rem 0;\n        }\n\n        .subtitle {\n            color: var(--text-secondary);\n            font-size: 1.25rem;\n            margin-bottom: 2rem;\n        }\n\n        table {\n            width: 100%;\n            border-collapse: collapse;\n            margin-bottom: 1.5rem;\n        }\n\n        th, td {\n            border: 1px solid rgba(255, 255, 255, 0.2);\n            padding: 0.75rem;\n            text-align: left;\n        }\n\n        thead {\n            background-color: rgba(255, 255, 255, 0.1);\n        }\n    </style>\n</head>\n<body>\n    <div class=\"container\">\n        <div class=\"date\">";

/// The end of the date line and the indentation in front of the content.
pub const DATE_CLOSE: &'static str = "</div>\n        ";

/// The end of the container, the body and the document.
pub const PAGE_CLOSE: &'static str = "\n    </div>\n</body>\n</html>";

pub const TITLE_OPEN: &'static str = "<title>";

pub const TITLE_CLOSE: &'static str = "</title>";

/// The part of a page in front of the title's text.
pub open spec fn before_title() -> Seq<char> {
    HEAD_OPEN@ + TITLE_OPEN@
}

/// The part of a page between the title's text and the date label.
pub open spec fn between_title_and_date() -> Seq<char> {
    TITLE_CLOSE@ + BODY_OPEN@
}

/// The complete document for a title, a date label and a content fragment: the three
/// are placed verbatim, in this order, between the fixed parts of the page.
pub open spec fn page_text(title: Seq<char>, date_label: Seq<char>, fragment: Seq<char>) -> Seq<char> {
    before_title() + title + between_title_and_date() + date_label + DATE_CLOSE@ + fragment
        + PAGE_CLOSE@
}

/// Wraps a content fragment in the complete, self-contained page. Nothing is escaped:
/// title, date label and fragment appear exactly as given.
pub fn wrap(title: &str, date_label: &str, fragment: &str) -> (page: String)
    ensures
        page@ == page_text(title@, date_label@, fragment@),
{
    let mut page = String::from_str(HEAD_OPEN);
    page.append(TITLE_OPEN);
    page.append(title);
    page.append(TITLE_CLOSE);
    page.append(BODY_OPEN);
    page.append(date_label);
    page.append(DATE_CLOSE);
    page.append(fragment);
    page.append(PAGE_CLOSE);
    proof {
        assert(page@ =~= page_text(title@, date_label@, fragment@));
    }
    page
}

/// The title element of every page holds the given title and nothing else: the page
/// is the fixed preamble, `<title>`, the title, `</title>`, and a remainder that does
/// not depend on the title.
pub proof fn lemma_title_element(title: Seq<char>, date_label: Seq<char>, fragment: Seq<char>)
    ensures
        page_text(title, date_label, fragment) == HEAD_OPEN@ + TITLE_OPEN@ + title + TITLE_CLOSE@
            + (BODY_OPEN@ + date_label + DATE_CLOSE@ + fragment + PAGE_CLOSE@),
{
    assert(page_text(title, date_label, fragment) =~= HEAD_OPEN@ + TITLE_OPEN@ + title
        + TITLE_CLOSE@ + (BODY_OPEN@ + date_label + DATE_CLOSE@ + fragment + PAGE_CLOSE@));
}

} // verus!
