//! The navigation menu: one copy of a template per catalog entry, with the
//! entry's title and index filled in.
use vstd::prelude::*;
use crate::catalog::PanelHash;

verus! {

/// What the menu reads when there are no panels.
pub const NO_PANELS_HTML: &'static str = "<li><br>No displayable panels configured<br></li>";

/// The placeholder for a panel's title.
pub const TITLE_MARK: &'static str = "|title|";

/// The placeholder for a panel's index.
pub const INDEX_MARK: &'static str = "|index|";

/// `s` with each match of `from`, taken from the left without overlap,
/// replaced by `to`.
pub open spec fn replace_all(s: Seq<char>, from: Seq<char>, to: Seq<char>) -> Seq<char>
    decreases s.len(),
{
    if from.len() == 0 || s.len() < from.len() {
        s
    } else if s.subrange(0, from.len() as int) == from {
        to + replace_all(s.subrange(from.len() as int, s.len() as int), from, to)
    } else {
        seq![s[0]] + replace_all(s.drop_first(), from, to)
    }
}

pub open spec fn digit(d: nat) -> char {
    seq!['0', '1', '2', '3', '4', '5', '6', '7', '8', '9'][d as int]
}

/// The decimal digits of `n`, with no sign and no leading zero.
pub open spec fn decimal(n: nat) -> Seq<char>
    decreases n,
{
    if n < 10 {
        seq![digit(n)]
    } else {
        decimal(n / 10).push(digit(n % 10))
    }
}

/// Relies on str::replace, which replaces every match of a pattern, scanning
/// from the left.
#[verifier::external_body]
fn replace(s: &str, from: &str, to: &str) -> (r: String)
    requires
        from@.len() > 0,
    ensures
        r@ == replace_all(s@, from@, to@),
{
    s.replace(from, to)
}

/// The digit `d` as text.
fn digit_text(d: usize) -> (r: String)
    requires
        d < 10,
    ensures
        r@ == seq![digit(d as nat)],
{
    if d == 0 {
        proof {
            reveal_strlit("0");
        }
        String::from_str("0")
    } else if d == 1 {
        proof {
            reveal_strlit("1");
        }
        String::from_str("1")
    } else if d == 2 {
        proof {
            reveal_strlit("2");
        }
        String::from_str("2")
    } else if d == 3 {
        proof {
            reveal_strlit("3");
        }
        String::from_str("3")
    } else if d == 4 {
        proof {
            reveal_strlit("4");
        }
        String::from_str("4")
    } else if d == 5 {
        proof {
            reveal_strlit("5");
        }
        String::from_str("5")
    } else if d == 6 {
        proof {
            reveal_strlit("6");
        }
        String::from_str("6")
    } else if d == 7 {
        proof {
            reveal_strlit("7");
        }
        String::from_str("7")
    } else if d == 8 {
        proof {
            reveal_strlit("8");
        }
        String::from_str("8")
    } else {
        proof {
            reveal_strlit("9");
        }
        String::from_str("9")
    }
}

/// `n` written in decimal.
pub fn index_text(n: usize) -> (r: String)
    ensures
        r@ == decimal(n as nat),
    decreases n,
{
    if n < 10 {
        digit_text(n)
    } else {
        let mut r = index_text(n / 10);
        let last = digit_text(n % 10);
        r.append(last.as_str());
        assert(r@ =~= decimal((n / 10) as nat).push(digit((n % 10) as nat)));
        r
    }
}

/// The menu item of the panel titled `title` at `index`: the title is filled
/// in first, so a title that holds the index placeholder has it replaced too.
pub open spec fn menu_item(template: Seq<char>, title: Seq<char>, index: nat) -> Seq<char> {
    replace_all(replace_all(template, TITLE_MARK@, title), INDEX_MARK@, decimal(index))
}

/// The menu items of `entries`, in index order.
pub open spec fn menu_items(entries: Seq<(Seq<char>, Seq<char>)>, template: Seq<char>) -> Seq<char>
    decreases entries.len(),
{
    if entries.len() == 0 {
        Seq::empty()
    } else {
        menu_items(entries.drop_last(), template) + menu_item(
            template,
            entries.last().0,
            entries.len(),
        )
    }
}

/// The menu of a catalog with the given (title, path) entries.
pub open spec fn top_menu(entries: Seq<(Seq<char>, Seq<char>)>, template: Seq<char>) -> Seq<char> {
    if entries.len() == 0 {
        NO_PANELS_HTML@
    } else {
        menu_items(entries, template)
    }
}

/// Fills in `template` once per panel, in index order, and joins the copies;
/// a catalog with no panels gives `NO_PANELS_HTML`.
pub fn top_menu_html(panels: &PanelHash, template: &str) -> (r: String)
    ensures
        r@ == top_menu(panels@, template@),
{
    if panels.is_empty() {
        return String::from_str(NO_PANELS_HTML);
    }
    proof {
        reveal_strlit("|title|");
        reveal_strlit("|index|");
    }
    let entries = panels.entries_in_order();
    let mut html = String::new();
    let mut i: usize = 0;
    while i < entries.len()
        invariant
            i <= entries@.len(),
            entries@.len() == panels@.len(),
            forall|k: int|
                0 <= k < entries@.len() ==> #[trigger] entries@[k].0 == k + 1 && entries@[k].1@
                    == panels@[k].0,
            TITLE_MARK@.len() > 0,
            INDEX_MARK@.len() > 0,
            html@ == menu_items(panels@.subrange(0, i as int), template@),
        decreases entries@.len() - i,
    {
        let with_title = replace(template, TITLE_MARK, entries[i].1.as_str());
        let number = index_text(entries[i].0);
        let item = replace(with_title.as_str(), INDEX_MARK, number.as_str());
        html.append(item.as_str());
        proof {
            let done = panels@.subrange(0, i + 1);
            assert(done.drop_last() =~= panels@.subrange(0, i as int));
            assert(done.last() == panels@[i as int]);
        }
        i = i + 1;
    }
    assert(panels@.subrange(0, i as int) =~= panels@);
    html
}

} // verus!
