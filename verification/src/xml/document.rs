//! A flat model of an XML document: its tokens, and for each token how
//! deeply it is nested. Elements are found by index, their children and
//! their text by walking the tokens behind them.

use crate::text::{blank, chars_of, first_char_from, is_blank, same_text, slice_text};
use crate::xml::reader::{pair_views, token_views, TagView, TokenView, XmlToken};
use vstd::prelude::*;

verus! {

/// The name `name` without its namespace prefix: what follows the first
/// colon, or all of it where there is none.
pub open spec fn local_name(name: Seq<char>) -> Seq<char> {
    let colon = first_char_from(name, ':', 0);
    if colon < name.len() {
        name.skip(colon + 1)
    } else {
        name
    }
}

/// The tag of a token that opens an element: a start tag or an empty
/// element tag.
pub open spec fn opened(t: TokenView) -> Option<TagView> {
    match t {
        TokenView::Start(tag) => Some(tag),
        TokenView::Empty(tag) => Some(tag),
        _ => None,
    }
}

/// Whether the token opens an element.
pub open spec fn is_element(t: TokenView) -> bool {
    opened(t) is Some
}

/// The names of the elements that are open before token `i`, outermost
/// first.
pub open spec fn open_names(tokens: Seq<TokenView>, i: int) -> Seq<Seq<char>>
    decreases i,
{
    if i <= 0 {
        Seq::empty()
    } else {
        let before = open_names(tokens, i - 1);
        match tokens[i - 1] {
            TokenView::Start(tag) => before.push(tag.name),
            TokenView::End(_) => before.drop_last(),
            _ => before,
        }
    }
}

/// How many elements are open before token `i`.
pub open spec fn depth(tokens: Seq<TokenView>, i: int) -> int {
    open_names(tokens, i).len() as int
}

/// Whether token `k`, where it is an end tag, closes the innermost open
/// element under that element's name.
pub open spec fn closes_properly(tokens: Seq<TokenView>, k: int) -> bool {
    tokens[k] matches TokenView::End(name) ==> {
        &&& open_names(tokens, k).len() > 0
        &&& open_names(tokens, k).last() == name
    }
}

/// Whether a token may stand outside the outermost element: a comment, a
/// declaration, a processing instruction, a document type, or whitespace.
pub open spec fn ignorable(t: TokenView) -> bool {
    match t {
        TokenView::Other => true,
        TokenView::Text(text) => is_blank(text),
        _ => false,
    }
}

/// Whether token `k`, where it stands outside every element and opens
/// none, is ignorable.
pub open spec fn stands_properly(tokens: Seq<TokenView>, k: int) -> bool {
    depth(tokens, k) == 0 && !is_element(tokens[k]) ==> ignorable(tokens[k])
}

/// Whether a token is sound by itself: a tag has well-formed attributes,
/// and a reference stands for a text.
pub open spec fn sound(t: TokenView) -> bool {
    match t {
        TokenView::Start(tag) => tag.attributes is Some,
        TokenView::Empty(tag) => tag.attributes is Some,
        TokenView::Reference { name, text } => text is Some,
        _ => true,
    }
}

/// Whether the first `n` tokens are the beginning of a well-formed
/// document: each of them is sound, closes properly and stands properly.
pub open spec fn well_formed_upto(tokens: Seq<TokenView>, n: int) -> bool {
    forall|k: int|
        0 <= k < n ==> sound(#[trigger] tokens[k]) && closes_properly(tokens, k)
            && stands_properly(tokens, k)
}

/// Whether the tokens are those of a well-formed document: every token is
/// sound; every end tag closes the innermost open element under its name,
/// and no element is left open; outside the outermost elements stand only
/// ignorable tokens.
pub open spec fn well_formed(tokens: Seq<TokenView>) -> bool {
    &&& well_formed_upto(tokens, tokens.len() as int)
    &&& depth(tokens, tokens.len() as int) == 0
}

/// A list of token indices as mathematical integers.
pub open spec fn indices(v: Seq<usize>) -> Seq<int> {
    v.map_values(|i: usize| i as int)
}

/// The values of a list of names.
pub open spec fn name_views(names: Seq<String>) -> Seq<Seq<char>> {
    names.map_values(|n: String| n@)
}

/// The elements that open at nesting depth `level` among the tokens from
/// `k` on, up to the first token that lies less deeply: their indices, in
/// order.
pub open spec fn elements_from(tokens: Seq<TokenView>, level: int, k: int) -> Seq<int>
    decreases tokens.len() - k,
{
    if k < 0 || k >= tokens.len() || depth(tokens, k) < level {
        Seq::empty()
    } else if depth(tokens, k) == level && is_element(tokens[k]) {
        seq![k] + elements_from(tokens, level, k + 1)
    } else {
        elements_from(tokens, level, k + 1)
    }
}

/// The child elements of the element that token `parent` opens: their
/// indices, in order. An empty element tag has none.
pub open spec fn children(tokens: Seq<TokenView>, parent: int) -> Seq<int> {
    if tokens[parent] is Start {
        elements_from(tokens, depth(tokens, parent) + 1, parent + 1)
    } else {
        Seq::empty()
    }
}

/// The elements that lie within no other element.
pub open spec fn top_elements(tokens: Seq<TokenView>) -> Seq<int> {
    elements_from(tokens, 0, 0)
}

/// The name, without its prefix, of the element that token `at` opens.
pub open spec fn element_name(tokens: Seq<TokenView>, at: int) -> Seq<char> {
    match opened(tokens[at]) {
        Some(tag) => local_name(tag.name),
        None => Seq::empty(),
    }
}

/// Those of the first `n` of the elements `among` whose name without
/// prefix is `name`.
pub open spec fn named_upto(
    tokens: Seq<TokenView>,
    among: Seq<int>,
    name: Seq<char>,
    n: int,
) -> Seq<int>
    decreases n,
{
    if n <= 0 {
        Seq::empty()
    } else {
        let before = named_upto(tokens, among, name, n - 1);
        if element_name(tokens, among[n - 1]) == name {
            before.push(among[n - 1])
        } else {
            before
        }
    }
}

/// Those of the elements `among` whose name without prefix is `name`.
pub open spec fn named(tokens: Seq<TokenView>, among: Seq<int>, name: Seq<char>) -> Seq<int> {
    named_upto(tokens, among, name, among.len() as int)
}

/// The text that token `t` adds to the content of the element it lies in,
/// or `None` where an element with text content cannot hold it: another
/// element, or a reference that stands for nothing.
pub open spec fn text_piece(t: TokenView) -> Option<Seq<char>> {
    match t {
        TokenView::Start(_) => None,
        TokenView::Empty(_) => None,
        TokenView::Text(text) => Some(text),
        TokenView::Reference { name, text } => text,
        TokenView::End(_) => Some(Seq::empty()),
        TokenView::Other => Some(Seq::empty()),
    }
}

/// The text pieces of the tokens from `k` on that lie at least `level`
/// deep, joined, or `None` where one of these tokens has no text piece.
pub open spec fn content_from(tokens: Seq<TokenView>, level: int, k: int) -> Option<Seq<char>>
    decreases tokens.len() - k,
{
    if k < 0 || k >= tokens.len() || depth(tokens, k) < level {
        Some(Seq::empty())
    } else {
        match (text_piece(tokens[k]), content_from(tokens, level, k + 1)) {
            (Some(piece), Some(rest)) => Some(piece + rest),
            _ => None,
        }
    }
}

/// The text content of the element that token `at` opens, or `None` where
/// the element holds more than text.
pub open spec fn content(tokens: Seq<TokenView>, at: int) -> Option<Seq<char>> {
    if tokens[at] is Start {
        content_from(tokens, depth(tokens, at) + 1, at + 1)
    } else {
        Some(Seq::empty())
    }
}

/// The value of the first of the attributes `pairs`, from number `i` on,
/// that has the key `key`.
pub open spec fn attribute_from(
    pairs: Seq<(Seq<char>, Seq<char>)>,
    key: Seq<char>,
    i: int,
) -> Option<Seq<char>>
    decreases pairs.len() - i,
{
    if i < 0 || i >= pairs.len() {
        None
    } else if pairs[i].0 == key {
        Some(pairs[i].1)
    } else {
        attribute_from(pairs, key, i + 1)
    }
}

/// The value of the attribute `key` of the element that token `at` opens,
/// where it has one.
pub open spec fn attribute(tokens: Seq<TokenView>, at: int, key: Seq<char>) -> Option<Seq<char>> {
    match opened(tokens[at]) {
        Some(tag) => match tag.attributes {
            Some(pairs) => attribute_from(pairs, key, 0),
            None => None,
        },
        None => None,
    }
}

/// Where the end tags close properly, the nesting depth before a token is
/// at most the token's index.
pub proof fn lemma_depth_bound(tokens: Seq<TokenView>, i: int)
    requires
        0 <= i,
        forall|k: int| 0 <= k < i ==> closes_properly(tokens, k),
    ensures
        0 <= depth(tokens, i) <= i,
    decreases i,
{
    if i > 0 {
        lemma_depth_bound(tokens, i - 1);
        assert(closes_properly(tokens, i - 1));
    }
}

/// The name `name` without its namespace prefix.
pub fn local_name_of(name: &str) -> (r: String)
    ensures
        r@ == local_name(name@),
{
    let chars = chars_of(name);
    let n = chars.len();
    let mut i: usize = 0;
    while i < n && chars[i] != ':'
        invariant
            n == chars@.len(),
            i <= n,
            first_char_from(chars@, ':', 0) == first_char_from(chars@, ':', i as int),
        decreases n - i,
    {
        i = i + 1;
    }
    if i < n {
        assert(chars@.skip(i + 1) =~= chars@.subrange(i + 1, n as int));
        slice_text(&chars, i + 1, n)
    } else {
        assert(chars@ =~= chars@.subrange(0, n as int));
        slice_text(&chars, 0, n)
    }
}

/// Whether the token is sound by itself.
pub fn is_sound(token: &XmlToken) -> (r: bool)
    ensures
        r == sound(token@),
{
    match token {
        XmlToken::Start(tag) => tag.attributes.is_some(),
        XmlToken::Empty(tag) => tag.attributes.is_some(),
        XmlToken::Reference { name: _, text } => text.is_some(),
        _ => true,
    }
}

/// Whether the token may stand outside the outermost element.
pub fn is_ignorable(token: &XmlToken) -> (r: bool)
    ensures
        r == ignorable(token@),
{
    match token {
        XmlToken::Other => true,
        XmlToken::Text(text) => blank(text.as_str()),
        _ => false,
    }
}

/// A well-formed XML document, with the nesting depth of each of its
/// tokens.
pub struct Document {
    tokens: Vec<XmlToken>,
    depths: Vec<usize>,
}

impl View for Document {
    type V = Seq<TokenView>;

    closed spec fn view(&self) -> Seq<TokenView> {
        token_views(self.tokens@)
    }
}

impl Document {
    #[verifier::type_invariant]
    spec fn inv(&self) -> bool {
        &&& self.depths@.len() == self.tokens@.len()
        &&& well_formed(token_views(self.tokens@))
        &&& forall|k: int|
            0 <= k < self.depths@.len() ==> #[trigger] self.depths@[k] == depth(
                token_views(self.tokens@),
                k,
            )
    }

    /// Works out how the tokens nest. Gives no document where they are
    /// not those of a well-formed one.
    pub fn outline(tokens: Vec<XmlToken>) -> (r: Option<Document>)
        ensures
            match r {
                Some(document) => document@ == token_views(tokens@) && well_formed(document@),
                None => !well_formed(token_views(tokens@)),
            },
    {
        let ghost views = token_views(tokens@);
        let n = tokens.len();
        let mut open: Vec<String> = Vec::new();
        let mut depths: Vec<usize> = Vec::new();
        let mut i: usize = 0;
        assert(name_views(open@) =~= Seq::<Seq<char>>::empty());
        while i < n
            invariant
                views == token_views(tokens@),
                n == tokens@.len(),
                i <= n,
                name_views(open@) == open_names(views, i as int),
                well_formed_upto(views, i as int),
                depths@.len() == i,
                forall|k: int| 0 <= k < i ==> #[trigger] depths@[k] == depth(views, k),
            decreases n - i,
        {
            let ghost before = name_views(open@);
            assert(views[i as int] == tokens@[i as int]@);
            let token = &tokens[i];
            if !is_sound(token) {
                return None;
            }
            depths.push(open.len());
            match token {
                XmlToken::Start(tag) => {
                    let name = tag.name.clone();
                    open.push(name);
                    assert(name_views(open@) =~= before.push(tag.name@));
                },
                XmlToken::Empty(_) => {},
                XmlToken::End(name) => {
                    match open.pop() {
                        Some(expected) => {
                            assert(name_views(open@) =~= before.drop_last());
                            assert(before.last() == expected@);
                            if !same_text(expected.as_str(), name.as_str()) {
                                assert(!closes_properly(views, i as int));
                                return None;
                            }
                        },
                        None => {
                            assert(!closes_properly(views, i as int));
                            return None;
                        },
                    }
                },
                _ => {
                    if depths[i] == 0 && !is_ignorable(token) {
                        assert(!stands_properly(views, i as int));
                        return None;
                    }
                },
            }
            i = i + 1;
        }
        if open.len() != 0 {
            return None;
        }
        Some(Document { tokens, depths })
    }

    /// The number of tokens, which are those of a well-formed document.
    pub fn len(&self) -> (r: usize)
        ensures
            r == self@.len(),
            well_formed(self@),
    {
        proof {
            use_type_invariant(self);
        }
        self.tokens.len()
    }

    /// The token at index `i`.
    pub fn token(&self, i: usize) -> (r: &XmlToken)
        requires
            i < self@.len(),
        ensures
            r@ == self@[i as int],
    {
        &self.tokens[i]
    }

    /// How many elements are open before token `i`.
    pub fn depth_at(&self, i: usize) -> (r: usize)
        requires
            i < self@.len(),
        ensures
            r == depth(self@, i as int),
    {
        proof {
            use_type_invariant(self);
        }
        self.depths[i]
    }

    /// The elements that open at nesting depth `level` among the tokens
    /// from `from` on, up to the first token that lies less deeply.
    pub fn elements(&self, level: usize, from: usize) -> (r: Vec<usize>)
        ensures
            indices(r@) == elements_from(self@, level as int, from as int),
            forall|j: int| 0 <= j < r@.len() ==> #[trigger] r@[j] < self@.len(),
    {
        proof {
            use_type_invariant(self);
        }
        let n = self.tokens.len();
        let mut found: Vec<usize> = Vec::new();
        let mut k: usize = from;
        assert(indices(found@) =~= Seq::<int>::empty());
        while k < n && self.depths[k] >= level
            invariant
                n == self@.len(),
                self.depths@.len() == n,
                forall|j: int| 0 <= j < n ==> #[trigger] self.depths@[j] == depth(self@, j),
                from <= k,
                elements_from(self@, level as int, from as int) == indices(found@) + elements_from(
                    self@,
                    level as int,
                    k as int,
                ),
                forall|j: int| 0 <= j < found@.len() ==> #[trigger] found@[j] < n,
            decreases n - k,
        {
            let ghost before = indices(found@);
            let ghost rest = elements_from(self@, level as int, k + 1);
            assert(self@[k as int] == self.tokens@[k as int]@);
            let opens = match &self.tokens[k] {
                XmlToken::Start(_) => true,
                XmlToken::Empty(_) => true,
                _ => false,
            };
            if self.depths[k] == level && opens {
                found.push(k);
                assert(indices(found@) =~= before + seq![k as int]);
                assert(before + (seq![k as int] + rest) =~= (before + seq![k as int]) + rest);
            }
            k = k + 1;
        }
        assert(indices(found@) + Seq::<int>::empty() =~= indices(found@));
        found
    }

    /// The child elements of the element that token `parent` opens.
    pub fn children_of(&self, parent: usize) -> (r: Vec<usize>)
        requires
            parent < self@.len(),
        ensures
            indices(r@) == children(self@, parent as int),
            forall|j: int| 0 <= j < r@.len() ==> #[trigger] r@[j] < self@.len(),
    {
        proof {
            use_type_invariant(self);
        }
        assert(self@[parent as int] == self.tokens@[parent as int]@);
        let n = self.tokens.len();
        match &self.tokens[parent] {
            XmlToken::Start(_) => {
                let level = self.depths[parent];
                proof {
                    lemma_depth_bound(self@, parent as int);
                    assert(level == depth(self@, parent as int));
                }
                self.elements(level + 1, parent + 1)
            },
            _ => {
                let none: Vec<usize> = Vec::new();
                assert(indices(none@) =~= Seq::<int>::empty());
                none
            },
        }
    }

    /// The elements that lie within no other element.
    pub fn top(&self) -> (r: Vec<usize>)
        ensures
            indices(r@) == top_elements(self@),
            forall|j: int| 0 <= j < r@.len() ==> #[trigger] r@[j] < self@.len(),
    {
        self.elements(0, 0)
    }

    /// The name, without its prefix, of the element that token `at` opens.
    pub fn local_name_at(&self, at: usize) -> (r: String)
        requires
            at < self@.len(),
        ensures
            r@ == element_name(self@, at as int),
    {
        assert(self@[at as int] == self.tokens@[at as int]@);
        match &self.tokens[at] {
            XmlToken::Start(tag) => local_name_of(tag.name.as_str()),
            XmlToken::Empty(tag) => local_name_of(tag.name.as_str()),
            _ => String::new(),
        }
    }

    /// Those of the elements `among` whose name without prefix is `name`.
    pub fn named_among(&self, among: &Vec<usize>, name: &str) -> (r: Vec<usize>)
        requires
            forall|j: int| 0 <= j < among@.len() ==> #[trigger] among@[j] < self@.len(),
        ensures
            indices(r@) == named(self@, indices(among@), name@),
            forall|j: int| 0 <= j < r@.len() ==> #[trigger] r@[j] < self@.len(),
    {
        let mut found: Vec<usize> = Vec::new();
        let mut j: usize = 0;
        assert(indices(found@) =~= Seq::<int>::empty());
        while j < among.len()
            invariant
                j <= among@.len(),
                forall|i: int| 0 <= i < among@.len() ==> #[trigger] among@[i] < self@.len(),
                indices(found@) == named_upto(self@, indices(among@), name@, j as int),
                forall|i: int| 0 <= i < found@.len() ==> #[trigger] found@[i] < self@.len(),
            decreases among@.len() - j,
        {
            let at = among[j];
            assert(indices(among@)[j as int] == at);
            let ghost before = indices(found@);
            let local = self.local_name_at(at);
            if same_text(local.as_str(), name) {
                found.push(at);
                assert(indices(found@) =~= before.push(at as int));
            }
            j = j + 1;
        }
        found
    }

    /// The text content of the element that token `at` opens, or `None`
    /// where the element holds more than text.
    pub fn content_of(&self, at: usize) -> (r: Option<String>)
        requires
            at < self@.len(),
        ensures
            match r {
                Some(text) => content(self@, at as int) == Some(text@),
                None => content(self@, at as int) is None,
            },
    {
        proof {
            use_type_invariant(self);
            lemma_depth_bound(self@, at as int);
        }
        assert(self@[at as int] == self.tokens@[at as int]@);
        let mut text = String::new();
        let n = self.tokens.len();
        match &self.tokens[at] {
            XmlToken::Start(_) => {},
            _ => {
                return Some(text);
            },
        }
        let level = self.depths[at] + 1;
        let mut k: usize = at + 1;
        while k < n && self.depths[k] >= level
            invariant
                n == self@.len(),
                self.depths@.len() == n,
                forall|j: int| 0 <= j < n ==> #[trigger] self.depths@[j] == depth(self@, j),
                at < k,
                content(self@, at as int) == content_from(self@, level as int, at + 1),
                content_from(self@, level as int, at + 1) == match content_from(
                    self@,
                    level as int,
                    k as int,
                ) {
                    Some(rest) => Some(text@ + rest),
                    None => None,
                },
            decreases n - k,
        {
            assert(self@[k as int] == self.tokens@[k as int]@);
            let ghost before = text@;
            let ghost rest = content_from(self@, level as int, k + 1);
            match &self.tokens[k] {
                XmlToken::Start(_) => {
                    return None;
                },
                XmlToken::Empty(_) => {
                    return None;
                },
                XmlToken::Text(piece) => {
                    text.append(piece.as_str());
                    proof {
                        if rest is Some {
                            assert(before + (piece@ + rest->0) =~= (before + piece@) + rest->0);
                        }
                    }
                },
                XmlToken::Reference { name: _, text: Some(piece) } => {
                    text.append(piece.as_str());
                    proof {
                        if rest is Some {
                            assert(before + (piece@ + rest->0) =~= (before + piece@) + rest->0);
                        }
                    }
                },
                XmlToken::Reference { name: _, text: None } => {
                    return None;
                },
                _ => {
                    proof {
                        if rest is Some {
                            assert(before + (Seq::<char>::empty() + rest->0) =~= before + rest->0);
                        }
                    }
                },
            }
            k = k + 1;
        }
        assert(text@ + Seq::<char>::empty() =~= text@);
        Some(text)
    }

    /// The value of the attribute `key` of the element that token `at`
    /// opens, where it has one.
    pub fn attribute_of(&self, at: usize, key: &str) -> (r: Option<String>)
        requires
            at < self@.len(),
        ensures
            match r {
                Some(value) => attribute(self@, at as int, key@) == Some(value@),
                None => attribute(self@, at as int, key@) is None,
            },
    {
        assert(self@[at as int] == self.tokens@[at as int]@);
        let pairs = match &self.tokens[at] {
            XmlToken::Start(tag) => &tag.attributes,
            XmlToken::Empty(tag) => &tag.attributes,
            _ => {
                return None;
            },
        };
        let pairs = match pairs {
            Some(pairs) => pairs,
            None => {
                return None;
            },
        };
        let ghost views = pair_views(pairs@);
        let mut i: usize = 0;
        while i < pairs.len()
            invariant
                views == pair_views(pairs@),
                attribute(self@, at as int, key@) == attribute_from(views, key@, 0),
                i <= pairs@.len(),
                attribute_from(views, key@, 0) == attribute_from(views, key@, i as int),
            decreases pairs@.len() - i,
        {
            assert(views[i as int] == (pairs@[i as int].0@, pairs@[i as int].1@));
            if same_text(pairs[i].0.as_str(), key) {
                return Some(pairs[i].1.clone());
            }
            i = i + 1;
        }
        None
    }
}

} // verus!
