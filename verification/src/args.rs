//! The arguments of a tool call: the members of the JSON object that the
//! client sends, each key mapped to what the tools can read from its value.
use vstd::prelude::*;
use crate::text::same_text;

verus! {

/// What a tool can read from the value of one argument.
pub enum ArgValue {
    /// A JSON string.
    Text(String),
    /// A JSON boolean.
    Flag(bool),
    /// Any other JSON value (number, null, array, object).
    Other,
}

/// The mathematical value of an `ArgValue`.
pub enum ArgValueView {
    Text(Seq<char>),
    Flag(bool),
    Other,
}

impl View for ArgValue {
    type V = ArgValueView;

    open spec fn view(&self) -> ArgValueView {
        match self {
            ArgValue::Text(s) => ArgValueView::Text(s@),
            ArgValue::Flag(b) => ArgValueView::Flag(*b),
            ArgValue::Other => ArgValueView::Other,
        }
    }
}

/// The arguments object of a tool call: each key occurs once, and a later
/// member with the same key replaces the earlier one, as in a JSON object.
pub struct ToolArgs {
    keys: Vec<String>,
    values: Vec<ArgValue>,
}

impl ToolArgs {
    #[verifier::type_invariant]
    spec fn wf(&self) -> bool {
        &&& self.keys.len() == self.values.len()
        &&& forall|i: int, j: int|
            0 <= i < j < self.keys.len() ==> self.keys@[i]@ != self.keys@[j]@
    }

    /// Where `key` stands in the member list, if it does.
    spec fn index_of(&self, key: Seq<char>) -> int {
        choose|i: int| 0 <= i < self.keys.len() && self.keys@[i]@ == key
    }

    spec fn has_key(&self, key: Seq<char>) -> bool {
        exists|i: int| 0 <= i < self.keys.len() && self.keys@[i]@ == key
    }

    /// The arguments as a map from key to value.
    pub closed spec fn as_map(&self) -> Map<Seq<char>, ArgValueView> {
        Map::new(|k: Seq<char>| self.has_key(k), |k: Seq<char>| self.values@[self.index_of(k)]@)
    }

    /// The empty arguments object.
    pub fn new() -> (a: ToolArgs)
        ensures
            a.as_map() == Map::<Seq<char>, ArgValueView>::empty(),
    {
        let a = ToolArgs { keys: Vec::new(), values: Vec::new() };
        assert(a.as_map() =~= Map::<Seq<char>, ArgValueView>::empty());
        a
    }

    /// Where `key` stands in the member list.
    fn find(&self, key: &str) -> (r: Option<usize>)
        ensures
            match r {
                Some(i) => i < self.keys.len() && self.keys@[i as int]@ == key@,
                None => !self.has_key(key@),
            },
    {
        let mut i: usize = 0;
        while i < self.keys.len()
            invariant
                i <= self.keys.len(),
                forall|j: int| 0 <= j < i ==> self.keys@[j]@ != key@,
            decreases self.keys.len() - i,
        {
            if same_text(self.keys[i].as_str(), key) {
                return Some(i);
            }
            i = i + 1;
        }
        None
    }

    /// Sets the member `key` to `value`, replacing an earlier value.
    pub fn insert(&mut self, key: String, value: ArgValue)
        ensures
            final(self).as_map() == old(self).as_map().insert(key@, value@),
    {
        proof {
            use_type_invariant(&*self);
        }
        let ghost pre = *self;
        let found = self.find(key.as_str());
        let mut cur = ToolArgs { keys: Vec::new(), values: Vec::new() };
        std::mem::swap(&mut cur, self);
        let ToolArgs { keys: mut keys, values: mut values } = cur;
        assert(keys@ == pre.keys@ && values@ == pre.values@);
        match found {
            Some(i) => {
                values.set(i, value);
                let post = ToolArgs { keys, values };
                proof {
                    use_type_invariant(&post);
                    assert forall|k: Seq<char>| post.has_key(k) implies post.index_of(k)
                        == pre.index_of(k) by {
                        let a = post.index_of(k);
                        let b = pre.index_of(k);
                        assert(post.keys@[a]@ == k);
                        assert(pre.keys@[b]@ == k);
                    }
                    assert(post.index_of(key@) == i);
                    assert(post.as_map() =~= pre.as_map().insert(key@, value@));
                }
                *self = post;
            },
            None => {
                let ghost kv = key@;
                let ghost vv = value@;
                keys.push(key);
                values.push(value);
                let post = ToolArgs { keys, values };
                proof {
                    use_type_invariant(&post);
                    let n = pre.keys.len() as int;
                    assert(post.keys@[n]@ == kv);
                    assert forall|k: Seq<char>| pre.has_key(k) implies post.index_of(k)
                        == pre.index_of(k) by {
                        let b = pre.index_of(k);
                        assert(post.keys@[b]@ == k);
                        let a = post.index_of(k);
                        assert(post.keys@[a]@ == k);
                    }
                    assert(post.has_key(kv));
                    assert(post.index_of(kv) == n);
                    assert forall|k: Seq<char>| post.has_key(k) implies pre.has_key(k) || k == kv by {
                        let a = post.index_of(k);
                        if a < n {
                            assert(pre.keys@[a]@ == k);
                        }
                    }
                    assert(post.values@[n]@ == vv);
                    assert forall|k: Seq<char>| #[trigger] post.as_map().dom().contains(k) == pre.as_map().insert(kv, vv).dom().contains(k) by {
                        if pre.has_key(k) {
                            let b = pre.index_of(k);
                            assert(post.keys@[b]@ == k);
                        }
                    }
                    assert forall|k: Seq<char>| #[trigger] post.as_map().dom().contains(k) implies post.as_map()[k] == pre.as_map().insert(kv, vv)[k] by {
                        if k != kv {
                            let b = pre.index_of(k);
                            assert(post.values@[b] == pre.values@[b]);
                        }
                    }
                    assert(post.as_map() =~= pre.as_map().insert(kv, vv));
                }
                *self = post;
            },
        }
    }

    /// The text of the member `key` when it is a string
    /// (`get(key).and_then(|v| v.as_str())`).
    pub fn get_text(&self, key: &str) -> (r: Option<String>)
        ensures
            r matches Some(t) ==> self.as_map().get(key@) == Some(ArgValueView::Text(t@)),
            r is None ==> !(self.as_map().get(key@) matches Some(ArgValueView::Text(_))),
    {
        proof {
            use_type_invariant(self);
        }
        match self.find(key) {
            Some(i) => {
                assert(self.index_of(key@) == i);
                match &self.values[i] {
                    ArgValue::Text(t) => Some(t.clone()),
                    _ => None,
                }
            },
            None => None,
        }
    }

    /// The boolean of the member `key` when it is one
    /// (`get(key).and_then(|v| v.as_bool())`).
    pub fn get_flag(&self, key: &str) -> (r: Option<bool>)
        ensures
            r matches Some(b) ==> self.as_map().get(key@) == Some(ArgValueView::Flag(b)),
            r is None ==> !(self.as_map().get(key@) matches Some(ArgValueView::Flag(_))),
    {
        proof {
            use_type_invariant(self);
        }
        match self.find(key) {
            Some(i) => {
                assert(self.index_of(key@) == i);
                match &self.values[i] {
                    ArgValue::Flag(b) => Some(*b),
                    _ => None,
                }
            },
            None => None,
        }
    }
}

impl View for ToolArgs {
    type V = Map<Seq<char>, ArgValueView>;

    open spec fn view(&self) -> Map<Seq<char>, ArgValueView> {
        self.as_map()
    }
}

/// The text of argument `key`, when the arguments hold one.
pub open spec fn text_arg(args: Map<Seq<char>, ArgValueView>, key: Seq<char>) -> Option<
    Seq<char>,
> {
    match args.get(key) {
        Some(ArgValueView::Text(t)) => Some(t),
        _ => None,
    }
}

/// The boolean of argument `key`, when the arguments hold one.
pub open spec fn flag_arg(args: Map<Seq<char>, ArgValueView>, key: Seq<char>) -> Option<bool> {
    match args.get(key) {
        Some(ArgValueView::Flag(b)) => Some(b),
        _ => None,
    }
}

/// The text of argument `key` of an optional arguments object
/// (`args.and_then(|a| a.get(key)).and_then(|v| v.as_str())`).
pub open spec fn opt_text_arg(args: Option<Map<Seq<char>, ArgValueView>>, key: Seq<char>) -> Option<
    Seq<char>,
> {
    match args {
        Some(a) => text_arg(a, key),
        None => None,
    }
}

/// `opt.unwrap_or(default)` on texts.
pub open spec fn text_or(opt: Option<Seq<char>>, default: Seq<char>) -> Seq<char> {
    match opt {
        Some(t) => t,
        None => default,
    }
}

/// The view of an optional arguments object.
pub open spec fn opt_args_view(args: Option<&ToolArgs>) -> Option<Map<Seq<char>, ArgValueView>> {
    match args {
        Some(a) => Some(a@),
        None => None,
    }
}

/// The text of argument `key` (as `text_arg`), read from an arguments object.
pub fn arg_text(args: &ToolArgs, key: &str) -> (r: Option<String>)
    ensures
        r matches Some(t) ==> text_arg(args@, key@) == Some(t@),
        r is None ==> text_arg(args@, key@) is None,
{
    args.get_text(key)
}

/// The text of argument `key` of an optional arguments object, or `default`.
pub fn arg_text_or(args: Option<&ToolArgs>, key: &str, default: &str) -> (r: String)
    ensures
        r@ == text_or(opt_text_arg(opt_args_view(args), key@), default@),
{
    match args {
        Some(a) => match a.get_text(key) {
            Some(t) => t,
            None => default.to_owned(),
        },
        None => default.to_owned(),
    }
}

} // verus!
