//! Method registry for the backend RPC layer: parameter-count rules and the
//! definitions of the methods a service publishes.

use vstd::prelude::*;
use vstd::string::StringExecFns;

verus! {

/// How many parameters an API method accepts.
#[derive(Debug, Copy, Clone)]
pub enum ParamCount {
    Any,
    Zero,
    Exactly(u8),
    AtLeast(u8),
    /// Inclusive range.
    Range(u8, u8),
}

/// The rule a parameter count states, as a predicate on the count.
pub open spec fn param_count_allows(pc: ParamCount, count: u8) -> bool {
    match pc {
        ParamCount::Any => true,
        ParamCount::Zero => count == 0,
        ParamCount::Exactly(c) => count == c,
        ParamCount::AtLeast(c) => count >= c,
        ParamCount::Range(s, e) => s <= count && count <= e,
    }
}

impl ParamCount {
    /// Returns true if the number of params provided matches the
    /// number specified by the ParamCount enum.
    pub fn matches(pc: &ParamCount, count: u8) -> (r: bool)
        ensures
            r == param_count_allows(*pc, count),
    {
        match *pc {
            ParamCount::Any => true,
            ParamCount::Zero => count == 0,
            ParamCount::Exactly(c) => count == c,
            ParamCount::AtLeast(c) => count >= c,
            ParamCount::Range(s, e) => s <= count && e >= count,
        }
    }
}

/// Simplest possible breakdown of supported parameter base types.
#[derive(Clone, Copy, Debug)]
pub enum ParamDataType {
    String,
    Number,
    Array,
    /// An object or other object-y thing.
    Object,
    Boolish,
    /// Not an object or array.
    Scalar,
    Any,
}

/// A statically-typed handle naming the worker routine that implements a
/// method.
#[derive(Clone, Copy, Debug)]
pub struct MethodHandler {
    pub id: usize,
}

/// A method parameter in a static method definition.
#[derive(Clone, Copy, Debug)]
pub struct StaticParam {
    pub name: &'static str,
    pub required: bool,
    pub datatype: ParamDataType,
    pub desc: &'static str,
}

/// A method parameter.
#[derive(Debug)]
pub struct Param {
    pub name: String,
    pub required: bool,
    pub datatype: ParamDataType,
    pub desc: Option<String>,
}

/// A variation of a method definition usable in static declarations.
pub struct StaticMethodDef {
    pub name: &'static str,
    pub desc: &'static str,
    pub param_count: ParamCount,
    pub handler: MethodHandler,
    pub params: &'static [StaticParam],
}

impl StaticMethodDef {
    pub fn name(&self) -> (r: &str)
        ensures
            r@ == self.name@,
    {
        self.name
    }

    pub fn param_count(&self) -> (r: &ParamCount)
        ensures
            r == self.param_count,
    {
        &self.param_count
    }

    pub fn handler(&self) -> (r: &MethodHandler)
        ensures
            r == self.handler,
    {
        &self.handler
    }

    /// Translate static method content into a proper method definition: the
    /// name is prefixed with the service's API prefix, empty descriptions
    /// become absent ones, and an empty parameter list becomes no list.
    pub fn into_method(&self, api_prefix: &str) -> (m: MethodDef)
        ensures
            m.name@ == api_prefix@ + "."@ + self.name@,
            m.param_count == self.param_count,
            m.handler == self.handler,
            m.atomic == false,
            (if self.desc@.len() > 0 {
                m.desc matches Some(d) && d@ == self.desc@
            } else {
                m.desc is None
            }),
            (if self.params@.len() == 0 {
                m.params is None
            } else {
                m.params matches Some(v) && v@.len() == self.params@.len() && (forall|i: int|
                    0 <= i < v@.len() ==> {
                        &&& (#[trigger] v@[i]).name@ == self.params@[i].name@
                        &&& v@[i].required == self.params@[i].required
                        &&& v@[i].datatype == self.params@[i].datatype
                        &&& (if self.params@[i].desc@.len() > 0 {
                            v@[i].desc matches Some(d) && d@ == self.params@[i].desc@
                        } else {
                            v@[i].desc is None
                        })
                    })
            }),
    {
        let mut params: Vec<Param> = Vec::new();
        let n = self.params.len();
        let mut i: usize = 0;
        while i < n
            invariant
                i <= n,
                n == self.params@.len(),
                params@.len() == i,
                forall|k: int|
                    0 <= k < i ==> {
                        &&& (#[trigger] params@[k]).name@ == self.params@[k].name@
                        &&& params@[k].required == self.params@[k].required
                        &&& params@[k].datatype == self.params@[k].datatype
                        &&& (if self.params@[k].desc@.len() > 0 {
                            params@[k].desc matches Some(d) && d@ == self.params@[k].desc@
                        } else {
                            params@[k].desc is None
                        })
                    },
            decreases n - i,
        {
            let p = self.params[i];
            let desc = if p.desc.is_empty() {
                None
            } else {
                Some(String::from_str(p.desc))
            };
            let param = Param {
                name: String::from_str(p.name),
                required: p.required,
                datatype: p.datatype,
                desc,
            };
            params.push(param);
            i += 1;
        }
        let mut full_name = String::from_str(api_prefix);
        full_name.append(".");
        full_name.append(self.name);
        let mut m = MethodDef::new(full_name.as_str(), self.param_count, self.handler);
        if params.len() > 0 {
            m.params = Some(params);
        }
        if !self.desc.is_empty() {
            m.desc = Some(String::from_str(self.desc));
        }
        m
    }
}

/// The quoted parameter names of a summary line, comma-separated.
pub open spec fn quoted_join(params: Seq<Param>) -> Seq<char>
    decreases params.len(),
{
    if params.len() == 0 {
        Seq::empty()
    } else if params.len() == 1 {
        seq!['\''] + params[0].name@ + seq!['\'']
    } else {
        quoted_join(params.drop_last()) + seq![','] + seq!['\''] + params.last().name@
            + seq!['\'']
    }
}

/// A full method definition.
pub struct MethodDef {
    pub name: String,
    pub desc: Option<String>,
    pub param_count: ParamCount,
    pub handler: MethodHandler,
    pub params: Option<Vec<Param>>,
    pub atomic: bool,
}

impl MethodDef {
    pub fn new(name: &str, param_count: ParamCount, handler: MethodHandler) -> (m: MethodDef)
        ensures
            m.name@ == name@,
            m.param_count == param_count,
            m.handler == handler,
            m.params is None,
            m.desc is None,
            m.atomic == false,
    {
        MethodDef {
            handler,
            param_count,
            params: None,
            desc: None,
            atomic: false,
            name: String::from_str(name),
        }
    }

    pub fn param_count(&self) -> (r: &ParamCount)
        ensures
            r == self.param_count,
    {
        &self.param_count
    }

    pub fn handler(&self) -> (r: MethodHandler)
        ensures
            r == self.handler,
    {
        self.handler
    }

    pub fn name(&self) -> (r: &str)
        ensures
            r@ == self.name@,
    {
        self.name.as_str()
    }

    pub fn set_name(&mut self, name: &str)
        ensures
            final(self).name@ == name@,
            final(self).desc == old(self).desc,
            final(self).param_count == old(self).param_count,
            final(self).handler == old(self).handler,
            final(self).params == old(self).params,
            final(self).atomic == old(self).atomic,
    {
        self.name = String::from_str(name);
    }

    pub fn atomic(&self) -> (r: bool)
        ensures
            r == self.atomic,
    {
        self.atomic
    }

    pub fn set_atomic(&mut self, atomic: bool)
        ensures
            final(self).atomic == atomic,
            final(self).name == old(self).name,
            final(self).desc == old(self).desc,
            final(self).param_count == old(self).param_count,
            final(self).handler == old(self).handler,
            final(self).params == old(self).params,
    {
        self.atomic = atomic;
    }

    pub fn params(&self) -> (r: Option<&Vec<Param>>)
        ensures
            match r {
                Some(v) => self.params matches Some(p) && p == *v,
                None => self.params is None,
            },
    {
        self.params.as_ref()
    }

    pub fn desc(&self) -> (r: Option<&str>)
        ensures
            match r {
                Some(d) => self.desc matches Some(s) && s@ == d@,
                None => self.desc is None,
            },
    {
        match self.desc.as_ref() {
            Some(d) => Some(d.as_str()),
            None => None,
        }
    }

    pub fn set_desc(&mut self, desc: &str)
        ensures
            final(self).desc matches Some(d) && d@ == desc@,
            final(self).name == old(self).name,
            final(self).param_count == old(self).param_count,
            final(self).handler == old(self).handler,
            final(self).params == old(self).params,
            final(self).atomic == old(self).atomic,
    {
        self.desc = Some(String::from_str(desc));
    }

    /// Append a parameter, starting the list when there is none yet.
    pub fn add_param(&mut self, param: Param)
        ensures
            match old(self).params {
                None => final(self).params matches Some(v) && v@ == seq![param],
                Some(v0) => final(self).params matches Some(v) && v@ == v0@.push(param),
            },
            final(self).name == old(self).name,
            final(self).desc == old(self).desc,
            final(self).param_count == old(self).param_count,
            final(self).handler == old(self).handler,
            final(self).atomic == old(self).atomic,
    {
        match self.params.as_mut() {
            Some(p) => {
                p.push(param);
            },
            None => {
                let mut v: Vec<Param> = Vec::new();
                v.push(param);
                proof {
                    assert(v@ =~= seq![param]);
                }
                self.params = Some(v);
            },
        }
    }

    /// One line naming the method and its parameters, as
    /// `name ('first','second')`.
    pub fn to_summary_string(&self) -> (r: String)
        ensures
            match self.params {
                Some(v) => r@ == self.name@ + " ("@ + quoted_join(v@) + ")"@,
                None => r@ == self.name@ + " ("@ + ")"@,
            },
    {
        let mut s = self.name.clone();
        s.append(" (");
        match self.params.as_ref() {
            Some(ps) => {
                let n = ps.len();
                let mut i: usize = 0;
                while i < n
                    invariant
                        i <= n,
                        n == ps@.len(),
                        s@ == self.name@ + " ("@ + quoted_join(ps@.subrange(0, i as int)),
                    decreases n - i,
                {
                    if i > 0 {
                        s.append(",");
                    }
                    s.append("'");
                    s.append(ps[i].name.as_str());
                    s.append("'");
                    proof {
                        reveal_strlit("'");
                        reveal_strlit(",");
                        assert("'"@ =~= seq!['\'']);
                        assert(","@ =~= seq![',']);
                        let cur = ps@.subrange(0, i + 1);
                        assert(cur.drop_last() =~= ps@.subrange(0, i as int));
                        assert(cur.last() == ps@[i as int]);
                        if i == 0 {
                            assert(cur.len() == 1);
                            assert(cur[0] == ps@[0]);
                            assert(s@ =~= self.name@ + " ("@ + quoted_join(cur));
                        } else {
                            assert(s@ =~= self.name@ + " ("@ + quoted_join(cur));
                        }
                    }
                    i += 1;
                }
                proof {
                    assert(ps@.subrange(0, n as int) =~= ps@);
                }
                s.append(")");
            },
            None => {
                s.append(")");
            },
        }
        s
    }
}

} // verus!
