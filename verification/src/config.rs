//! Where the files of the program are kept.

use vstd::prelude::*;
use vstd::string::StringExecFns;

verus! {

/// The directory that holds the files of the program.
pub struct Config {
    pub rqos_data_home: String,
}

/// The path of `name` in the directory `dir`.
pub open spec fn path_in(dir: Seq<char>, name: Seq<char>) -> Seq<char> {
    dir + seq!['/'] + name
}

impl Config {
    /// The configuration for the data directory given: the files are kept
    /// in its subdirectory `rqos`.
    pub fn with_data_home(data_home: &str) -> (config: Config)
        ensures
            config.rqos_data_home@ == path_in(data_home@, "rqos"@),
    {
        let mut home = String::from_str(data_home);
        home.push('/');
        let home = home.concat("rqos");
        proof {
            assert(home@ =~= path_in(data_home@, "rqos"@));
        }
        Config { rqos_data_home: home }
    }

    /// The path of the file named `filename`.
    pub fn get_filename(&self, filename: &str) -> (path: String)
        ensures
            path@ == path_in(self.rqos_data_home@, filename@),
    {
        let mut path = self.rqos_data_home.clone();
        path.push('/');
        let path = path.concat(filename);
        proof {
            assert(path@ =~= path_in(self.rqos_data_home@, filename@));
        }
        path
    }
}

} // verus!
