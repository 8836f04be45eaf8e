use vstd::prelude::*;
use vstd::string::*;
use crate::text::{
    all_digits, concat, decimal, decimal_string, digit_char, digit_value, digits_value,
    is_ascii_digit, parse_usize, parse_usize_seq, str_eq,
};

verus! {

/// Vertical gap between two pages laid out on the estimate canvas.
pub const PAGE_GAP: u64 = 150;

/// Id of the SVG element that holds the estimate canvas.
pub const ESTIMATE_CANVAS_ID: &'static str = "estimate-single-canvas";

/// Sort key given to a page id that is not a number.
pub const UNKNOWN_PAGE_SORT_KEY: usize = 999;

/// One page of a processed plan, as the processing result lists it.
pub struct PageInfo {
    pub page_num: usize,
    pub classification: String,
    pub display_key: String,
    pub display_width: u32,
    pub display_height: u32,
}

/// The processing result of an uploaded plan.
pub struct ResultJson {
    pub pages: Vec<PageInfo>,
}

/// A page placed on the canvas: pages are stacked top to bottom, separated
/// by `PAGE_GAP`. Offsets are whole canvas units.
pub struct PageLayout {
    pub page_num: usize,
    pub classification: String,
    pub image_url: String,
    pub display_width: u32,
    pub display_height: u32,
    pub y_offset: u64,
}

/// A group of pages that share a classification, with its heading.
pub struct ClassifiedSection {
    pub classification: String,
    pub label: String,
    pub pages: Vec<PageInfo>,
}

/// The classifications in display order.
pub open spec fn classification_order() -> Seq<Seq<char>> {
    seq!["floor_plan"@, "elevation"@, "electrical"@, "site_plan"@, "other"@]
}

/// Position of `c` in `classification_order()`, or its length when absent.
pub open spec fn spec_classification_rank(c: Seq<char>) -> nat {
    if c == "floor_plan"@ {
        0
    } else if c == "elevation"@ {
        1
    } else if c == "electrical"@ {
        2
    } else if c == "site_plan"@ {
        3
    } else if c == "other"@ {
        4
    } else {
        5
    }
}

/// Heading shown for a classification.
pub open spec fn spec_classification_label(c: Seq<char>) -> Seq<char> {
    if c == "floor_plan"@ {
        "Floor Plan"@
    } else if c == "elevation"@ {
        "Elevations"@
    } else if c == "electrical"@ {
        "Electrical"@
    } else if c == "site_plan"@ {
        "Site Plan"@
    } else {
        "Other"@
    }
}

/// Position of a classification in the display order; unknown ones sort last.
pub fn classification_rank(classification: &str) -> (rank: usize)
    ensures
        rank == spec_classification_rank(classification@),
{
    if str_eq(classification, "floor_plan") {
        0
    } else if str_eq(classification, "elevation") {
        1
    } else if str_eq(classification, "electrical") {
        2
    } else if str_eq(classification, "site_plan") {
        3
    } else if str_eq(classification, "other") {
        4
    } else {
        5
    }
}

/// Heading shown for a classification; unknown ones read "Other".
pub fn classification_label(classification: &str) -> (label: &'static str)
    ensures
        label@ == spec_classification_label(classification@),
{
    if str_eq(classification, "floor_plan") {
        "Floor Plan"
    } else if str_eq(classification, "elevation") {
        "Elevations"
    } else if str_eq(classification, "electrical") {
        "Electrical"
    } else if str_eq(classification, "site_plan") {
        "Site Plan"
    } else {
        "Other"
    }
}

/// The rank of each listed classification is its position in the list, and
/// anything else ranks after all of them.
pub proof fn lemma_rank_is_position(i: int, other: Seq<char>)
    requires
        0 <= i < 5,
        !classification_order().contains(other),
    ensures
        spec_classification_rank(classification_order()[i]) == i,
        spec_classification_rank(other) == classification_order().len(),
{
    reveal_strlit("floor_plan");
    reveal_strlit("elevation");
    reveal_strlit("electrical");
    reveal_strlit("site_plan");
    reveal_strlit("other");
    let fp = "floor_plan"@;
    let el = "elevation"@;
    let ec = "electrical"@;
    let sp = "site_plan"@;
    let ot = "other"@;
    assert(fp.len() == 10 && el.len() == 9 && ec.len() == 10 && sp.len() == 9 && ot.len() == 5);
    assert(fp[0] != ec[0] && el[0] != sp[0] && fp != el && fp != sp && ec != el && ec != sp);
    assert(fp != ec) by {
        assert(fp[0] != ec[0]);
    }
    assert(el != sp) by {
        assert(el[0] != sp[0]);
    }
    assert(classification_order()[0] == "floor_plan"@);
    assert(classification_order()[1] == "elevation"@);
    assert(classification_order()[2] == "electrical"@);
    assert(classification_order()[3] == "site_plan"@);
    assert(classification_order()[4] == "other"@);
}

/// Top offset of page `i` when `heights` are stacked with `PAGE_GAP` between them.
pub open spec fn stacked_offset(heights: Seq<u32>, i: int) -> int
    decreases i,
{
    if i <= 0 {
        0
    } else {
        stacked_offset(heights, i - 1) + heights[i - 1] + PAGE_GAP
    }
}

pub open spec fn page_heights(pages: Seq<PageInfo>) -> Seq<u32> {
    pages.map_values(|p: PageInfo| p.display_height)
}

proof fn lemma_stacked_offset_bound(heights: Seq<u32>, i: int)
    requires
        0 <= i <= heights.len(),
    ensures
        0 <= stacked_offset(heights, i) <= i * (u32::MAX + PAGE_GAP),
    decreases i,
{
    if i > 0 {
        lemma_stacked_offset_bound(heights, i - 1);
    }
}

/// Lays the pages out top to bottom. `base_url` is the address of the content
/// delivery network; page images live under `/cdn/app/` there.
pub fn build_page_layouts(pages: Vec<PageInfo>, base_url: &str) -> (layouts: Vec<PageLayout>)
    requires
        pages.len() < 0x8000_0000,
    ensures
        layouts.len() == pages.len(),
        forall|i: int|
            0 <= i < pages.len() ==> {
                let p = #[trigger] pages[i];
                let l = layouts[i];
                &&& l.page_num == p.page_num
                &&& l.classification@ == p.classification@
                &&& l.image_url@ == base_url@ + "/cdn/app/"@ + p.display_key@
                &&& l.display_width == p.display_width
                &&& l.display_height == p.display_height
                &&& l.y_offset == stacked_offset(page_heights(pages@), i)
            },
{
    let ghost heights = page_heights(pages@);
    let mut layouts: Vec<PageLayout> = Vec::new();
    let mut y_offset: u64 = 0;
    let mut i: usize = 0;
    let prefix = concat(base_url, "/cdn/app/");
    while i < pages.len()
        invariant
            pages.len() < 0x8000_0000,
            heights == page_heights(pages@),
            prefix@ == base_url@ + "/cdn/app/"@,
            i <= pages.len(),
            layouts.len() == i,
            y_offset == stacked_offset(heights, i as int),
            forall|k: int|
                0 <= k < i ==> {
                    let p = #[trigger] pages[k];
                    let l = layouts[k];
                    &&& l.page_num == p.page_num
                    &&& l.classification@ == p.classification@
                    &&& l.image_url@ == base_url@ + "/cdn/app/"@ + p.display_key@
                    &&& l.display_width == p.display_width
                    &&& l.display_height == p.display_height
                    &&& l.y_offset == stacked_offset(heights, k)
                },
        decreases pages.len() - i,
    {
        let page = &pages[i];
        let url = concat(prefix.as_str(), page.display_key.as_str());
        layouts.push(
            PageLayout {
                page_num: page.page_num,
                classification: page.classification.clone(),
                image_url: url,
                display_width: page.display_width,
                display_height: page.display_height,
                y_offset,
            },
        );
        proof {
            lemma_stacked_offset_bound(heights, i + 1);
            assert(heights[i as int] == page.display_height);
            assert((i + 1) * (u32::MAX + PAGE_GAP) <= 0x8000_0000 * (u32::MAX + PAGE_GAP))
                by (nonlinear_arith)
                requires
                    i + 1 <= 0x8000_0000,
            ;
        }
        y_offset = y_offset + page.display_height as u64 + PAGE_GAP;
        i = i + 1;
    }
    layouts
}

/// Width of the widest page and bottom edge of the last page (zero when empty).
pub open spec fn spec_content_bounds(pages: Seq<PageLayout>) -> (nat, nat) {
    (
        max_width(pages),
        if pages.len() == 0 {
            0
        } else {
            (pages.last().y_offset + pages.last().display_height) as nat
        },
    )
}

/// Largest `display_width` among `pages`, zero when there are none.
pub open spec fn max_width(pages: Seq<PageLayout>) -> nat
    decreases pages.len(),
{
    if pages.len() == 0 {
        0
    } else {
        let rest = max_width(pages.drop_last());
        if pages.last().display_width > rest {
            pages.last().display_width as nat
        } else {
            rest
        }
    }
}

/// Size of the stacked content: width of the widest page and bottom edge of
/// the last page.
pub fn canvas_content_bounds(pages: &[PageLayout]) -> (bounds: (u32, u64))
    requires
        pages@.len() > 0 ==> pages@.last().y_offset + pages@.last().display_height <= u64::MAX,
    ensures
        (bounds.0 as nat, bounds.1 as nat) == spec_content_bounds(pages@),
{
    let mut width: u32 = 0;
    let mut i: usize = 0;
    while i < pages.len()
        invariant
            i <= pages@.len(),
            width as nat == max_width(pages@.subrange(0, i as int)),
        decreases pages@.len() - i,
    {
        proof {
            assert(pages@.subrange(0, i + 1).drop_last() =~= pages@.subrange(0, i as int));
        }
        if pages[i].display_width > width {
            width = pages[i].display_width;
        }
        i = i + 1;
    }
    assert(pages@.subrange(0, pages@.len() as int) =~= pages@);
    let height = if pages.len() == 0 {
        0
    } else {
        let last = &pages[pages.len() - 1];
        last.y_offset + last.display_height as u64
    };
    (width, height)
}

/// Whether the whole-unit row `y` lies on `page`.
pub open spec fn page_contains_row(page: PageLayout, y: int) -> bool {
    page.y_offset <= y < page.y_offset + page.display_height
}

/// Index of the first page that contains row `y`: the row of a click is the
/// floor of its canvas y coordinate.
pub fn find_page_at(pages: &[PageLayout], y: i64) -> (found: Option<usize>)
    ensures
        found matches Some(i) ==> {
            &&& i < pages@.len()
            &&& page_contains_row(pages@[i as int], y as int)
            &&& forall|k: int| 0 <= k < i ==> !page_contains_row(#[trigger] pages@[k], y as int)
        },
        found is None ==> forall|k: int|
            0 <= k < pages@.len() ==> !page_contains_row(#[trigger] pages@[k], y as int),
{
    let mut i: usize = 0;
    while i < pages.len()
        invariant
            i <= pages@.len(),
            forall|k: int| 0 <= k < i ==> !page_contains_row(#[trigger] pages@[k], y as int),
        decreases pages@.len() - i,
    {
        let page = &pages[i];
        if y >= 0 && (y as u64) >= page.y_offset && (y as u64) - page.y_offset
            < page.display_height as u64 {
            return Some(i);
        }
        i = i + 1;
    }
    None
}

/// Id (the decimal page number) of the page that contains canvas row `y`.
pub fn detect_page_id_from_world_y(pages: &[PageLayout], y: i64) -> (id: Option<String>)
    ensures
        id matches Some(s) ==> exists|i: int|
            0 <= i < pages@.len() && page_contains_row(pages@[i], y as int) && (forall|k: int|
                0 <= k < i ==> !page_contains_row(#[trigger] pages@[k], y as int)) && s@
                == decimal(pages@[i].page_num as nat),
        id is None ==> forall|k: int|
            0 <= k < pages@.len() ==> !page_contains_row(#[trigger] pages@[k], y as int),
{
    match find_page_at(pages, y) {
        Some(i) => Some(decimal_string(pages[i].page_num as u64)),
        None => None,
    }
}

/// The page that the canvas centres on when a drawing step starts: the first one.
pub fn first_floor_plan_page(pages: &[PageLayout]) -> (page: Option<&PageLayout>)
    ensures
        pages@.len() == 0 ==> page is None,
        pages@.len() > 0 ==> page == Some(&pages@[0]),
{
    if pages.len() == 0 {
        None
    } else {
        Some(&pages[0])
    }
}

/// Key by which saved per-page data is listed: the page number, or 999 for
/// an id that is not one.
pub open spec fn spec_page_sort_key(page_id: Seq<char>) -> nat {
    match parse_usize_seq(page_id) {
        Some(v) => v,
        None => UNKNOWN_PAGE_SORT_KEY as nat,
    }
}

/// Key by which saved per-page data is listed (`parse::<usize>().unwrap_or(999)`).
pub fn page_sort_key(page_id: &str) -> (key: usize)
    ensures
        key as nat == spec_page_sort_key(page_id@),
{
    match parse_usize(page_id) {
        Some(v) => v,
        None => UNKNOWN_PAGE_SORT_KEY,
    }
}

proof fn lemma_decimal_digits(n: nat)
    ensures
        all_digits(decimal(n)),
        decimal(n).len() > 0,
        digits_value(decimal(n)) == n,
        decimal(n)[0] != '+',
    decreases n,
{
    if n < 10 {
        let s = decimal(n);
        assert(s.drop_last() =~= Seq::<char>::empty());
        assert(digits_value(Seq::<char>::empty()) == 0);
        assert(digit_value(digit_char(n)) == n);
        assert(digits_value(s) == digits_value(s.drop_last()) * 10 + digit_value(s.last()));
    } else {
        lemma_decimal_digits(n / 10);
        let s = decimal(n);
        let t = decimal(n / 10);
        assert(s.drop_last() =~= t);
        assert(digit_value(digit_char(n % 10)) == n % 10);
        assert forall|i: int| 0 <= i < s.len() implies is_ascii_digit(#[trigger] s[i]) by {
            if i < t.len() {
                assert(s[i] == t[i]);
            }
        }
        assert(s[0] == t[0]);
    }
}

/// Page ids are page numbers written in decimal, and listing saved data by
/// `page_sort_key` orders it by page number.
pub proof fn lemma_sort_key_of_page_id(page_num: usize)
    ensures
        spec_page_sort_key(decimal(page_num as nat)) == page_num,
{
    lemma_decimal_digits(page_num as nat);
}

/// Consecutive pages touch neither each other nor the gap: page `i + 1`
/// starts `PAGE_GAP` units below the bottom of page `i`.
pub proof fn lemma_layout_stacking(heights: Seq<u32>, i: int)
    requires
        0 <= i,
        i + 1 < heights.len(),
    ensures
        stacked_offset(heights, i + 1) == stacked_offset(heights, i) + heights[i] + PAGE_GAP,
        stacked_offset(heights, i) < stacked_offset(heights, i + 1),
{
}

/// Rows of different pages never coincide, so a row belongs to one page at most.
pub proof fn lemma_pages_disjoint(heights: Seq<u32>, i: int, j: int)
    requires
        0 <= i < j < heights.len(),
    ensures
        stacked_offset(heights, i) + heights[i] < stacked_offset(heights, j),
    decreases j - i,
{
    if j > i + 1 {
        lemma_pages_disjoint(heights, i, j - 1);
    }
}

/// Whether `ids` are in order of `page_sort_key`.
pub open spec fn sorted_by_page_key(ids: Seq<Seq<char>>) -> bool {
    forall|i: int, j: int|
        0 <= i < j < ids.len() ==> spec_page_sort_key(#[trigger] ids[i]) <= spec_page_sort_key(
            #[trigger] ids[j],
        )
}

/// Page ids in the order in which their saved data is listed: by page
/// number, ids that are not numbers last.
pub fn sort_page_ids(ids: &Vec<String>) -> (sorted: Vec<String>)
    ensures
        sorted.deep_view().to_multiset() == ids.deep_view().to_multiset(),
        sorted_by_page_key(sorted.deep_view()),
{
    let ghost all = ids.deep_view();
    let mut sorted: Vec<String> = Vec::new();
    let mut keys: Vec<usize> = Vec::new();
    let mut i: usize = 0;
    assert(sorted.deep_view() =~= all.subrange(0, 0));
    while i < ids.len()
        invariant
            all == ids.deep_view(),
            i <= ids@.len(),
            keys@.len() == sorted@.len(),
            forall|k: int|
                0 <= k < keys@.len() ==> keys@[k] as nat == spec_page_sort_key(
                    #[trigger] sorted.deep_view()[k],
                ),
            sorted_by_page_key(sorted.deep_view()),
            sorted.deep_view().to_multiset() == all.subrange(0, i as int).to_multiset(),
        decreases ids@.len() - i,
    {
        let id = ids[i].clone();
        let key = page_sort_key(id.as_str());
        let mut j: usize = 0;
        while j < keys.len() && keys[j] <= key
            invariant
                j <= keys@.len(),
                forall|k: int| 0 <= k < j ==> keys@[k] <= key,
            decreases keys@.len() - j,
        {
            j = j + 1;
        }
        let ghost before = sorted.deep_view();
        let ghost before_keys = keys@;
        sorted.insert(j, id);
        keys.insert(j, key);
        assert(sorted.deep_view() =~= before.insert(j as int, all[i as int]));
        assert(all.subrange(0, i + 1) =~= all.subrange(0, i as int).push(all[i as int]));
        proof {
            vstd::seq_lib::to_multiset_insert(before, j as int, all[i as int]);
            vstd::seq_lib::to_multiset_build(all.subrange(0, i as int), all[i as int]);
        }
        assert(before.insert(j as int, all[i as int]).to_multiset() == before.to_multiset().insert(
            all[i as int],
        ));
        assert(all.subrange(0, i as int).push(all[i as int]).to_multiset() == all.subrange(
            0,
            i as int,
        ).to_multiset().insert(all[i as int]));
        assert forall|k: int|
            0 <= k < keys@.len() implies keys@[k] as nat == spec_page_sort_key(
            #[trigger] sorted.deep_view()[k],
        ) by {
            if k < j {
                assert(keys@[k] == before_keys[k]);
                assert(sorted.deep_view()[k] == before[k]);
            } else if k > j {
                assert(keys@[k] == before_keys[k - 1]);
                assert(sorted.deep_view()[k] == before[k - 1]);
            }
        }
        assert forall|a: int, b: int|
            0 <= a < b < sorted.deep_view().len() implies spec_page_sort_key(
            #[trigger] sorted.deep_view()[a],
        ) <= spec_page_sort_key(#[trigger] sorted.deep_view()[b]) by {
            assert(keys@[a] as nat == spec_page_sort_key(sorted.deep_view()[a]));
            assert(keys@[b] as nat == spec_page_sort_key(sorted.deep_view()[b]));
            if a < j && b > j {
                assert(before_keys[a] <= key);
                if j < before_keys.len() {
                    assert(before_keys[j as int] > key);
                    assert(spec_page_sort_key(before[j as int]) <= spec_page_sort_key(
                        before[b - 1],
                    ));
                }
            } else if a == j && b > j {
                if j < before_keys.len() {
                    assert(before_keys[j as int] > key);
                    if b - 1 > j {
                        assert(spec_page_sort_key(before[j as int]) <= spec_page_sort_key(
                            before[b - 1],
                        ));
                    }
                }
            } else if a < j && b == j {
                assert(before_keys[a] <= key);
            } else if a < j && b < j {
                assert(spec_page_sort_key(before[a]) <= spec_page_sort_key(before[b]));
            } else if a > j && b > j {
                assert(spec_page_sort_key(before[a - 1]) <= spec_page_sort_key(before[b - 1]));
            }
        }
        i = i + 1;
    }
    assert(all.subrange(0, ids@.len() as int) =~= all);
    sorted
}

} // verus!
