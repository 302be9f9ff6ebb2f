//! The PostgreSQL driver's computational core: connection-string assembly
//! and the mapping from the server's type names to the column model.

use vstd::prelude::*;

use crate::database::ColumnType;

verus! {

/// Connection parameters for a PostgreSQL server.
#[derive(Debug)]
pub struct Postgres {
    pub host: String,
    pub user: String,
    pub dbname: String,
    pub password: String,
}

impl Postgres {
    pub fn new(host: &str, user: &str, dbname: &str, password: &str) -> (p: Postgres)
        ensures
            p.host@ == host@,
            p.user@ == user@,
            p.dbname@ == dbname@,
            p.password@ == password@,
    {
        Postgres {
            host: host.to_owned(),
            user: user.to_owned(),
            dbname: dbname.to_owned(),
            password: password.to_owned(),
        }
    }

    /// The keyword/value connection string for these parameters, with the
    /// user repeated as the driver expects it.
    pub fn conn_string(&self) -> (r: String)
        ensures
            r@ == "host="@ + self.host@ + " user="@ + self.user@ + " dbname="@ + self.dbname@
                + " user="@ + self.user@ + " password="@ + self.password@,
    {
        let mut s = String::new();
        s.append("host=");
        s.append(self.host.as_str());
        s.append(" user=");
        s.append(self.user.as_str());
        s.append(" dbname=");
        s.append(self.dbname.as_str());
        s.append(" user=");
        s.append(self.user.as_str());
        s.append(" password=");
        s.append(self.password.as_str());
        proof {
            assert(s@ =~= "host="@ + self.host@ + " user="@ + self.user@ + " dbname="@
                + self.dbname@ + " user="@ + self.user@ + " password="@ + self.password@);
        }
        s
    }
}

/// Maps the server's reported type name to the column model.  Only
/// `varchar` columns are understood so far; the caller guarantees no other
/// name is handed in.
pub fn get_column_type(udt_type: &str) -> (r: ColumnType)
    requires
        udt_type@ == "varchar"@,
    ensures
        r == ColumnType::Str,
{
    let owned: String = udt_type.to_owned();
    let pattern: String = "varchar".to_owned();
    if owned == pattern {
        ColumnType::Str
    } else {
        proof {
            assert(false);
        }
        unreached()
    }
}

} // verus!
