use vstd::prelude::*;
use crate::platform::new_uuid_string;
use crate::platform::now_unix;
use crate::text::str_eq;

verus! {

/// A stored message template, stamped with when it was made and last
/// changed.
pub struct Template {
    pub id: String,
    pub name: String,
    pub title: String,
    pub body: String,
    pub created_at: i64,
    pub updated_at: i64,
}

impl Clone for Template {
    fn clone(&self) -> (r: Self)
        ensures
            r == *self,
    {
        Template {
            id: self.id.clone(),
            name: self.name.clone(),
            title: self.title.clone(),
            body: self.body.clone(),
            created_at: self.created_at,
            updated_at: self.updated_at,
        }
    }
}

impl Template {
    /// A fresh template with a new random id, made and changed now.
    pub fn new(name: String, title: String, body: String) -> (t: Self)
        ensures
            t.id@.len() == 36,
            t.name == name,
            t.title == title,
            t.body == body,
            t.created_at == t.updated_at,
    {
        let now = now_unix();
        Template { id: new_uuid_string(), name, title, body, created_at: now, updated_at: now }
    }

    /// Rewrites the template's content; the id and creation time stay.
    pub fn update(&mut self, name: String, title: String, body: String)
        ensures
            final(self).id == old(self).id,
            final(self).name == name,
            final(self).title == title,
            final(self).body == body,
            final(self).created_at == old(self).created_at,
    {
        self.name = name;
        self.title = title;
        self.body = body;
        self.updated_at = now_unix();
    }
}

/// The templates of `ts` whose id is not `id`, in order.
pub open spec fn without_id(ts: Seq<Template>, id: Seq<char>) -> Seq<Template>
    decreases ts.len(),
{
    if ts.len() == 0 {
        Seq::empty()
    } else if ts[0].id@ == id {
        without_id(ts.drop_first(), id)
    } else {
        seq![ts[0]] + without_id(ts.drop_first(), id)
    }
}

/// Appending a template filters like the rest, then it.
proof fn lemma_without_id_push(s: Seq<Template>, x: Template, id: Seq<char>)
    ensures
        without_id(s.push(x), id) == without_id(s, id) + (if x.id@ == id {
            Seq::<Template>::empty()
        } else {
            seq![x]
        }),
    decreases s.len(),
{
    let tail: Seq<Template> = if x.id@ == id {
        Seq::empty()
    } else {
        seq![x]
    };
    if s.len() == 0 {
        assert(s.push(x)[0] == x);
        assert(s.push(x).drop_first() =~= Seq::<Template>::empty());
        assert(without_id(Seq::<Template>::empty(), id) == Seq::<Template>::empty());
        assert(s =~= Seq::<Template>::empty());
        if x.id@ == id {
            assert(without_id(s.push(x), id) == without_id(s.push(x).drop_first(), id));
            assert(without_id(s.push(x), id) =~= without_id(s, id) + tail);
        } else {
            assert(without_id(s.push(x), id) == seq![s.push(x)[0]] + without_id(
                s.push(x).drop_first(),
                id,
            ));
            assert(without_id(s.push(x), id) =~= without_id(s, id) + tail);
        }
    } else {
        let rest = s.drop_first();
        lemma_without_id_push(rest, x, id);
        assert(s.push(x)[0] == s[0]);
        assert(s.push(x).drop_first() =~= rest.push(x));
        if s[0].id@ == id {
            assert(without_id(s.push(x), id) == without_id(rest.push(x), id));
            assert(without_id(s.push(x), id) =~= without_id(s, id) + tail);
        } else {
            assert(without_id(s.push(x), id) == seq![s[0]] + without_id(rest.push(x), id));
            assert(seq![s[0]] + (without_id(rest, id) + tail) =~= (seq![s[0]] + without_id(
                rest,
                id,
            )) + tail);
            assert(without_id(s.push(x), id) =~= without_id(s, id) + tail);
        }
    }
}

/// The stored templates.
pub struct TemplateList {
    pub templates: Vec<Template>,
}

impl Default for TemplateList {
    /// An empty list.
    fn default() -> (l: Self)
        ensures
            l.templates@.len() == 0,
    {
        TemplateList { templates: Vec::new() }
    }
}

impl TemplateList {
    /// Rewrites the first template with the same id, or appends a new one.
    pub fn save(&mut self, template: Template)
        ensures
            (exists|i: int|
                0 <= i < old(self).templates@.len() && (#[trigger] old(self).templates@[i]).id@
                    == template.id@ && (forall|j: int|
                    0 <= j < i ==> (#[trigger] old(self).templates@[j]).id@ != template.id@)
                    && final(self).templates@ == old(self).templates@.update(i, template)) || ((
            forall|i: int|
                0 <= i < old(self).templates@.len() ==> (#[trigger] old(self).templates@[i]).id@
                    != template.id@) && final(self).templates@ == old(self).templates@.push(
                template,
            )),
    {
        let n = self.templates.len();
        let mut i: usize = 0;
        while i < n
            invariant
                i <= n,
                n == self.templates@.len(),
                self == old(self),
                forall|j: int| 0 <= j < i ==> (#[trigger] self.templates@[j]).id@ != template.id@,
            decreases n - i,
        {
            let same = str_eq(self.templates[i].id.as_str(), template.id.as_str());
            if same {
                self.templates[i] = template;
                return ;
            }
            i += 1;
        }
        self.templates.push(template);
    }

    /// Removes every template with the given id; reports whether any went.
    pub fn delete(&mut self, id: &str) -> (r: bool)
        ensures
            final(self).templates@ == without_id(old(self).templates@, id@),
            r == (final(self).templates@.len() != old(self).templates@.len()),
    {
        let n = self.templates.len();
        let mut kept: Vec<Template> = Vec::new();
        let mut i: usize = 0;
        proof {
            assert(old(self).templates@.take(0) =~= Seq::<Template>::empty());
        }
        while i < n
            invariant
                i <= n,
                n == self.templates@.len(),
                self == old(self),
                kept@ == without_id(self.templates@.take(i as int), id@),
            decreases n - i,
        {
            let t = &self.templates[i];
            if !str_eq(t.id.as_str(), id) {
                kept.push(t.clone());
            }
            i += 1;
            proof {
                let ts = self.templates@;
                assert(ts.take(i as int) =~= ts.take(i - 1).push(ts[i - 1]));
                lemma_without_id_push(ts.take(i - 1), ts[i - 1], id@);
            }
        }
        proof {
            assert(self.templates@.take(n as int) =~= self.templates@);
        }
        let removed = kept.len() != self.templates.len();
        self.templates = kept;
        removed
    }

    /// The first template with the given id, if any.
    pub fn get(&self, id: &str) -> (r: Option<&Template>)
        ensures
            match r {
                Some(t) => exists|i: int|
                    0 <= i < self.templates@.len() && (#[trigger] self.templates@[i]).id@ == id@
                        && *t == self.templates@[i] && (forall|j: int|
                        0 <= j < i ==> (#[trigger] self.templates@[j]).id@ != id@),
                None => forall|i: int|
                    0 <= i < self.templates@.len() ==> (#[trigger] self.templates@[i]).id@ != id@,
            },
    {
        let n = self.templates.len();
        let mut i: usize = 0;
        while i < n
            invariant
                i <= n,
                n == self.templates@.len(),
                forall|j: int| 0 <= j < i ==> (#[trigger] self.templates@[j]).id@ != id@,
            decreases n - i,
        {
            let t = &self.templates[i];
            if str_eq(t.id.as_str(), id) {
                return Some(t);
            }
            i += 1;
        }
        None
    }
}

} // verus!
